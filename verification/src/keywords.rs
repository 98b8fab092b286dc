//! The keyword table: the closed, case-insensitive mapping from reserved
//! words to [`KeywordKind`].
//!
//! A scanned word is lower-cased byte by byte and looked up by exact match;
//! there is no prefix or fuzzy matching. A word that is not in the table is
//! an identifier. [`spec_match_kw`] is the table itself, stated over byte
//! sequences; [`match_kw`] is its executable twin.

use vstd::prelude::*;

use crate::ascii::{
    A, B, C, D, E, F, G, H, I, J, K, L, M, N, O, P, Q, R, S, T, U, V, W, X, Y,
};
use crate::ascii::{byte_lower, lower_all};
use crate::token::{DataKind, KeywordKind};

verus! {

/// The keyword table over a raw word: the word is lower-cased, then matched
/// against each reserved spelling in turn.
pub open spec fn spec_match_kw(w: Seq<u8>) -> Option<KeywordKind> {
    let lw = lower_all(w);
    if lw == seq![A, D, D] {
        Some(KeywordKind::Add)
    } else if lw == seq![A, L, L] {
        Some(KeywordKind::All)
    } else if lw == seq![A, L, T, E, R] {
        Some(KeywordKind::Alter)
    } else if lw == seq![A, N, D] {
        Some(KeywordKind::And)
    } else if lw == seq![A, N, Y] {
        Some(KeywordKind::Any)
    } else if lw == seq![A, S] {
        Some(KeywordKind::As)
    } else if lw == seq![A, S, C] {
        Some(KeywordKind::Asc)
    } else if lw == seq![B, A, C, K, U, P] {
        Some(KeywordKind::Backup)
    } else if lw == seq![B, E, G, I, N] {
        Some(KeywordKind::Begin)
    } else if lw == seq![B, Y] {
        Some(KeywordKind::By)
    } else if lw == seq![C, A, S, E] {
        Some(KeywordKind::Case)
    } else if lw == seq![C, H, E, C, K] {
        Some(KeywordKind::Check)
    } else if lw == seq![C, O, L, U, M, N] {
        Some(KeywordKind::Column)
    } else if lw == seq![C, O, M, M, I, T] {
        Some(KeywordKind::Commit)
    } else if lw == seq![C, O, N, S, T, R, A, I, N, T] {
        Some(KeywordKind::Constraint)
    } else if lw == seq![C, R, E, A, T, E] {
        Some(KeywordKind::Create)
    } else if lw == seq![D, A, T, A, B, A, S, E] {
        Some(KeywordKind::Database)
    } else if lw == seq![D, E, F, A, U, L, T] {
        Some(KeywordKind::Default)
    } else if lw == seq![D, E, L, E, T, E] {
        Some(KeywordKind::Delete)
    } else if lw == seq![D, E, S, C] {
        Some(KeywordKind::Desc)
    } else if lw == seq![D, I, S, T, I, N, C, T] {
        Some(KeywordKind::Distinct)
    } else if lw == seq![D, R, O, P] {
        Some(KeywordKind::Drop)
    } else if lw == seq![E, L, S, E] {
        Some(KeywordKind::Else)
    } else if lw == seq![E, X, E, C] {
        Some(KeywordKind::Exec)
    } else if lw == seq![E, X, I, S, T, S] {
        Some(KeywordKind::Exists)
    } else if lw == seq![F, O, R, E, I, G, N] {
        Some(KeywordKind::Foreign)
    } else if lw == seq![F, R, O, M] {
        Some(KeywordKind::From)
    } else if lw == seq![F, U, L, L] {
        Some(KeywordKind::Full)
    } else if lw == seq![G, R, A, N, T] {
        Some(KeywordKind::Grant)
    } else if lw == seq![G, R, O, U, P] {
        Some(KeywordKind::Group)
    } else if lw == seq![H, A, V, I, N, G] {
        Some(KeywordKind::Having)
    } else if lw == seq![I, F] {
        Some(KeywordKind::If)
    } else if lw == seq![I, N] {
        Some(KeywordKind::In)
    } else if lw == seq![I, N, T, O] {
        Some(KeywordKind::Into)
    } else if lw == seq![I, N, D, E, X] {
        Some(KeywordKind::Index)
    } else if lw == seq![I, N, N, E, R] {
        Some(KeywordKind::Inner)
    } else if lw == seq![I, N, S, E, R, T] {
        Some(KeywordKind::Insert)
    } else if lw == seq![I, S] {
        Some(KeywordKind::Is)
    } else if lw == seq![J, O, I, N] {
        Some(KeywordKind::Join)
    } else if lw == seq![K, E, Y] {
        Some(KeywordKind::Key)
    } else if lw == seq![L, E, F, T] {
        Some(KeywordKind::Left)
    } else if lw == seq![L, I, K, E] {
        Some(KeywordKind::Like)
    } else if lw == seq![L, I, M, I, T] {
        Some(KeywordKind::Limit)
    } else if lw == seq![N, O, T] {
        Some(KeywordKind::Not)
    } else if lw == seq![N, U, L, L] {
        Some(KeywordKind::Null)
    } else if lw == seq![O, R] {
        Some(KeywordKind::Or)
    } else if lw == seq![O, R, D, E, R] {
        Some(KeywordKind::Order)
    } else if lw == seq![O, U, T, E, R] {
        Some(KeywordKind::Outer)
    } else if lw == seq![P, R, I, M, A, R, Y] {
        Some(KeywordKind::Primary)
    } else if lw == seq![P, R, O, C, E, D, U, R, E] {
        Some(KeywordKind::Procedure)
    } else if lw == seq![R, E, V, O, K, E] {
        Some(KeywordKind::Revoke)
    } else if lw == seq![R, I, G, H, T] {
        Some(KeywordKind::Right)
    } else if lw == seq![R, O, L, L, B, A, C, K] {
        Some(KeywordKind::Rollback)
    } else if lw == seq![R, O, W, N, U, M] {
        Some(KeywordKind::Rownum)
    } else if lw == seq![S, E, L, E, C, T] {
        Some(KeywordKind::Select)
    } else if lw == seq![S, E, T] {
        Some(KeywordKind::SetKw)
    } else if lw == seq![S, O, M, E] {
        Some(KeywordKind::SomeKw)
    } else if lw == seq![T, A, B, L, E] {
        Some(KeywordKind::Table)
    } else if lw == seq![T, H, E, N] {
        Some(KeywordKind::Then)
    } else if lw == seq![T, O, P] {
        Some(KeywordKind::Top)
    } else if lw == seq![T, R, A, N, S, A, C, T, I, O, N] {
        Some(KeywordKind::Transaction)
    } else if lw == seq![T, R, U, N, C, A, T, E] {
        Some(KeywordKind::Truncate)
    } else if lw == seq![U, N, I, O, N] {
        Some(KeywordKind::Union)
    } else if lw == seq![U, N, I, Q, U, E] {
        Some(KeywordKind::Unique)
    } else if lw == seq![U, P, D, A, T, E] {
        Some(KeywordKind::Update)
    } else if lw == seq![V, A, L, U, E, S] {
        Some(KeywordKind::Values)
    } else if lw == seq![V, I, E, W] {
        Some(KeywordKind::View)
    } else if lw == seq![W, H, E, N] {
        Some(KeywordKind::When)
    } else if lw == seq![W, H, E, R, E] {
        Some(KeywordKind::Where)
    } else if lw == seq![W, O, R, K] {
        Some(KeywordKind::Work)
    } else {
        None
    }
}

/// Element-wise equality of two byte vectors.
fn word_eq(a: &Vec<u8>, b: &Vec<u8>) -> (r: bool)
    ensures
        r == (a@ == b@),
{
    if a.len() != b.len() {
        return false;
    }
    let mut i: usize = 0;
    while i < a.len()
        invariant
            0 <= i <= a@.len(),
            a@.len() == b@.len(),
            forall|j: int| 0 <= j < i ==> a@[j] == b@[j],
        decreases a@.len() - i,
    {
        if a[i] != b[i] {
            return false;
        }
        i = i + 1;
    }
    proof {
        assert(a@ =~= b@);
    }
    true
}

/// The word lower-cased into a fresh vector.
fn lower_word(word: &[u8]) -> (lw: Vec<u8>)
    ensures
        lw@ == lower_all(word@),
{
    let mut lw: Vec<u8> = Vec::new();
    let mut i: usize = 0;
    while i < word.len()
        invariant
            0 <= i <= word@.len(),
            lw@ =~= lower_all(word@).take(i as int),
        decreases word@.len() - i,
    {
        lw.push(byte_lower(*vstd::slice::slice_index_get(word, i)));
        i = i + 1;
    }
    proof {
        assert(lw@ =~= lower_all(word@));
    }
    lw
}

/// Looks a scanned word up in the keyword table.
#[verifier::rlimit(60)]
pub fn match_kw(word: &[u8]) -> (r: Option<KeywordKind>)
    ensures
        r == spec_match_kw(word@),
{
    let lw = lower_word(word);
    let t: Vec<u8> = vec![A, D, D];
    assert(t@ =~= seq![A, D, D]);
    if word_eq(&lw, &t) {
        return Some(KeywordKind::Add);
    }
    let t: Vec<u8> = vec![A, L, L];
    assert(t@ =~= seq![A, L, L]);
    if word_eq(&lw, &t) {
        return Some(KeywordKind::All);
    }
    let t: Vec<u8> = vec![A, L, T, E, R];
    assert(t@ =~= seq![A, L, T, E, R]);
    if word_eq(&lw, &t) {
        return Some(KeywordKind::Alter);
    }
    let t: Vec<u8> = vec![A, N, D];
    assert(t@ =~= seq![A, N, D]);
    if word_eq(&lw, &t) {
        return Some(KeywordKind::And);
    }
    let t: Vec<u8> = vec![A, N, Y];
    assert(t@ =~= seq![A, N, Y]);
    if word_eq(&lw, &t) {
        return Some(KeywordKind::Any);
    }
    let t: Vec<u8> = vec![A, S];
    assert(t@ =~= seq![A, S]);
    if word_eq(&lw, &t) {
        return Some(KeywordKind::As);
    }
    let t: Vec<u8> = vec![A, S, C];
    assert(t@ =~= seq![A, S, C]);
    if word_eq(&lw, &t) {
        return Some(KeywordKind::Asc);
    }
    let t: Vec<u8> = vec![B, A, C, K, U, P];
    assert(t@ =~= seq![B, A, C, K, U, P]);
    if word_eq(&lw, &t) {
        return Some(KeywordKind::Backup);
    }
    let t: Vec<u8> = vec![B, E, G, I, N];
    assert(t@ =~= seq![B, E, G, I, N]);
    if word_eq(&lw, &t) {
        return Some(KeywordKind::Begin);
    }
    let t: Vec<u8> = vec![B, Y];
    assert(t@ =~= seq![B, Y]);
    if word_eq(&lw, &t) {
        return Some(KeywordKind::By);
    }
    let t: Vec<u8> = vec![C, A, S, E];
    assert(t@ =~= seq![C, A, S, E]);
    if word_eq(&lw, &t) {
        return Some(KeywordKind::Case);
    }
    let t: Vec<u8> = vec![C, H, E, C, K];
    assert(t@ =~= seq![C, H, E, C, K]);
    if word_eq(&lw, &t) {
        return Some(KeywordKind::Check);
    }
    let t: Vec<u8> = vec![C, O, L, U, M, N];
    assert(t@ =~= seq![C, O, L, U, M, N]);
    if word_eq(&lw, &t) {
        return Some(KeywordKind::Column);
    }
    let t: Vec<u8> = vec![C, O, M, M, I, T];
    assert(t@ =~= seq![C, O, M, M, I, T]);
    if word_eq(&lw, &t) {
        return Some(KeywordKind::Commit);
    }
    let t: Vec<u8> = vec![C, O, N, S, T, R, A, I, N, T];
    assert(t@ =~= seq![C, O, N, S, T, R, A, I, N, T]);
    if word_eq(&lw, &t) {
        return Some(KeywordKind::Constraint);
    }
    let t: Vec<u8> = vec![C, R, E, A, T, E];
    assert(t@ =~= seq![C, R, E, A, T, E]);
    if word_eq(&lw, &t) {
        return Some(KeywordKind::Create);
    }
    let t: Vec<u8> = vec![D, A, T, A, B, A, S, E];
    assert(t@ =~= seq![D, A, T, A, B, A, S, E]);
    if word_eq(&lw, &t) {
        return Some(KeywordKind::Database);
    }
    let t: Vec<u8> = vec![D, E, F, A, U, L, T];
    assert(t@ =~= seq![D, E, F, A, U, L, T]);
    if word_eq(&lw, &t) {
        return Some(KeywordKind::Default);
    }
    let t: Vec<u8> = vec![D, E, L, E, T, E];
    assert(t@ =~= seq![D, E, L, E, T, E]);
    if word_eq(&lw, &t) {
        return Some(KeywordKind::Delete);
    }
    let t: Vec<u8> = vec![D, E, S, C];
    assert(t@ =~= seq![D, E, S, C]);
    if word_eq(&lw, &t) {
        return Some(KeywordKind::Desc);
    }
    let t: Vec<u8> = vec![D, I, S, T, I, N, C, T];
    assert(t@ =~= seq![D, I, S, T, I, N, C, T]);
    if word_eq(&lw, &t) {
        return Some(KeywordKind::Distinct);
    }
    let t: Vec<u8> = vec![D, R, O, P];
    assert(t@ =~= seq![D, R, O, P]);
    if word_eq(&lw, &t) {
        return Some(KeywordKind::Drop);
    }
    let t: Vec<u8> = vec![E, L, S, E];
    assert(t@ =~= seq![E, L, S, E]);
    if word_eq(&lw, &t) {
        return Some(KeywordKind::Else);
    }
    let t: Vec<u8> = vec![E, X, E, C];
    assert(t@ =~= seq![E, X, E, C]);
    if word_eq(&lw, &t) {
        return Some(KeywordKind::Exec);
    }
    let t: Vec<u8> = vec![E, X, I, S, T, S];
    assert(t@ =~= seq![E, X, I, S, T, S]);
    if word_eq(&lw, &t) {
        return Some(KeywordKind::Exists);
    }
    let t: Vec<u8> = vec![F, O, R, E, I, G, N];
    assert(t@ =~= seq![F, O, R, E, I, G, N]);
    if word_eq(&lw, &t) {
        return Some(KeywordKind::Foreign);
    }
    let t: Vec<u8> = vec![F, R, O, M];
    assert(t@ =~= seq![F, R, O, M]);
    if word_eq(&lw, &t) {
        return Some(KeywordKind::From);
    }
    let t: Vec<u8> = vec![F, U, L, L];
    assert(t@ =~= seq![F, U, L, L]);
    if word_eq(&lw, &t) {
        return Some(KeywordKind::Full);
    }
    let t: Vec<u8> = vec![G, R, A, N, T];
    assert(t@ =~= seq![G, R, A, N, T]);
    if word_eq(&lw, &t) {
        return Some(KeywordKind::Grant);
    }
    let t: Vec<u8> = vec![G, R, O, U, P];
    assert(t@ =~= seq![G, R, O, U, P]);
    if word_eq(&lw, &t) {
        return Some(KeywordKind::Group);
    }
    let t: Vec<u8> = vec![H, A, V, I, N, G];
    assert(t@ =~= seq![H, A, V, I, N, G]);
    if word_eq(&lw, &t) {
        return Some(KeywordKind::Having);
    }
    let t: Vec<u8> = vec![I, F];
    assert(t@ =~= seq![I, F]);
    if word_eq(&lw, &t) {
        return Some(KeywordKind::If);
    }
    let t: Vec<u8> = vec![I, N];
    assert(t@ =~= seq![I, N]);
    if word_eq(&lw, &t) {
        return Some(KeywordKind::In);
    }
    let t: Vec<u8> = vec![I, N, T, O];
    assert(t@ =~= seq![I, N, T, O]);
    if word_eq(&lw, &t) {
        return Some(KeywordKind::Into);
    }
    let t: Vec<u8> = vec![I, N, D, E, X];
    assert(t@ =~= seq![I, N, D, E, X]);
    if word_eq(&lw, &t) {
        return Some(KeywordKind::Index);
    }
    let t: Vec<u8> = vec![I, N, N, E, R];
    assert(t@ =~= seq![I, N, N, E, R]);
    if word_eq(&lw, &t) {
        return Some(KeywordKind::Inner);
    }
    let t: Vec<u8> = vec![I, N, S, E, R, T];
    assert(t@ =~= seq![I, N, S, E, R, T]);
    if word_eq(&lw, &t) {
        return Some(KeywordKind::Insert);
    }
    let t: Vec<u8> = vec![I, S];
    assert(t@ =~= seq![I, S]);
    if word_eq(&lw, &t) {
        return Some(KeywordKind::Is);
    }
    let t: Vec<u8> = vec![J, O, I, N];
    assert(t@ =~= seq![J, O, I, N]);
    if word_eq(&lw, &t) {
        return Some(KeywordKind::Join);
    }
    let t: Vec<u8> = vec![K, E, Y];
    assert(t@ =~= seq![K, E, Y]);
    if word_eq(&lw, &t) {
        return Some(KeywordKind::Key);
    }
    let t: Vec<u8> = vec![L, E, F, T];
    assert(t@ =~= seq![L, E, F, T]);
    if word_eq(&lw, &t) {
        return Some(KeywordKind::Left);
    }
    let t: Vec<u8> = vec![L, I, K, E];
    assert(t@ =~= seq![L, I, K, E]);
    if word_eq(&lw, &t) {
        return Some(KeywordKind::Like);
    }
    let t: Vec<u8> = vec![L, I, M, I, T];
    assert(t@ =~= seq![L, I, M, I, T]);
    if word_eq(&lw, &t) {
        return Some(KeywordKind::Limit);
    }
    let t: Vec<u8> = vec![N, O, T];
    assert(t@ =~= seq![N, O, T]);
    if word_eq(&lw, &t) {
        return Some(KeywordKind::Not);
    }
    let t: Vec<u8> = vec![N, U, L, L];
    assert(t@ =~= seq![N, U, L, L]);
    if word_eq(&lw, &t) {
        return Some(KeywordKind::Null);
    }
    let t: Vec<u8> = vec![O, R];
    assert(t@ =~= seq![O, R]);
    if word_eq(&lw, &t) {
        return Some(KeywordKind::Or);
    }
    let t: Vec<u8> = vec![O, R, D, E, R];
    assert(t@ =~= seq![O, R, D, E, R]);
    if word_eq(&lw, &t) {
        return Some(KeywordKind::Order);
    }
    let t: Vec<u8> = vec![O, U, T, E, R];
    assert(t@ =~= seq![O, U, T, E, R]);
    if word_eq(&lw, &t) {
        return Some(KeywordKind::Outer);
    }
    let t: Vec<u8> = vec![P, R, I, M, A, R, Y];
    assert(t@ =~= seq![P, R, I, M, A, R, Y]);
    if word_eq(&lw, &t) {
        return Some(KeywordKind::Primary);
    }
    let t: Vec<u8> = vec![P, R, O, C, E, D, U, R, E];
    assert(t@ =~= seq![P, R, O, C, E, D, U, R, E]);
    if word_eq(&lw, &t) {
        return Some(KeywordKind::Procedure);
    }
    let t: Vec<u8> = vec![R, E, V, O, K, E];
    assert(t@ =~= seq![R, E, V, O, K, E]);
    if word_eq(&lw, &t) {
        return Some(KeywordKind::Revoke);
    }
    let t: Vec<u8> = vec![R, I, G, H, T];
    assert(t@ =~= seq![R, I, G, H, T]);
    if word_eq(&lw, &t) {
        return Some(KeywordKind::Right);
    }
    let t: Vec<u8> = vec![R, O, L, L, B, A, C, K];
    assert(t@ =~= seq![R, O, L, L, B, A, C, K]);
    if word_eq(&lw, &t) {
        return Some(KeywordKind::Rollback);
    }
    let t: Vec<u8> = vec![R, O, W, N, U, M];
    assert(t@ =~= seq![R, O, W, N, U, M]);
    if word_eq(&lw, &t) {
        return Some(KeywordKind::Rownum);
    }
    let t: Vec<u8> = vec![S, E, L, E, C, T];
    assert(t@ =~= seq![S, E, L, E, C, T]);
    if word_eq(&lw, &t) {
        return Some(KeywordKind::Select);
    }
    let t: Vec<u8> = vec![S, E, T];
    assert(t@ =~= seq![S, E, T]);
    if word_eq(&lw, &t) {
        return Some(KeywordKind::SetKw);
    }
    let t: Vec<u8> = vec![S, O, M, E];
    assert(t@ =~= seq![S, O, M, E]);
    if word_eq(&lw, &t) {
        return Some(KeywordKind::SomeKw);
    }
    let t: Vec<u8> = vec![T, A, B, L, E];
    assert(t@ =~= seq![T, A, B, L, E]);
    if word_eq(&lw, &t) {
        return Some(KeywordKind::Table);
    }
    let t: Vec<u8> = vec![T, H, E, N];
    assert(t@ =~= seq![T, H, E, N]);
    if word_eq(&lw, &t) {
        return Some(KeywordKind::Then);
    }
    let t: Vec<u8> = vec![T, O, P];
    assert(t@ =~= seq![T, O, P]);
    if word_eq(&lw, &t) {
        return Some(KeywordKind::Top);
    }
    let t: Vec<u8> = vec![T, R, A, N, S, A, C, T, I, O, N];
    assert(t@ =~= seq![T, R, A, N, S, A, C, T, I, O, N]);
    if word_eq(&lw, &t) {
        return Some(KeywordKind::Transaction);
    }
    let t: Vec<u8> = vec![T, R, U, N, C, A, T, E];
    assert(t@ =~= seq![T, R, U, N, C, A, T, E]);
    if word_eq(&lw, &t) {
        return Some(KeywordKind::Truncate);
    }
    let t: Vec<u8> = vec![U, N, I, O, N];
    assert(t@ =~= seq![U, N, I, O, N]);
    if word_eq(&lw, &t) {
        return Some(KeywordKind::Union);
    }
    let t: Vec<u8> = vec![U, N, I, Q, U, E];
    assert(t@ =~= seq![U, N, I, Q, U, E]);
    if word_eq(&lw, &t) {
        return Some(KeywordKind::Unique);
    }
    let t: Vec<u8> = vec![U, P, D, A, T, E];
    assert(t@ =~= seq![U, P, D, A, T, E]);
    if word_eq(&lw, &t) {
        return Some(KeywordKind::Update);
    }
    let t: Vec<u8> = vec![V, A, L, U, E, S];
    assert(t@ =~= seq![V, A, L, U, E, S]);
    if word_eq(&lw, &t) {
        return Some(KeywordKind::Values);
    }
    let t: Vec<u8> = vec![V, I, E, W];
    assert(t@ =~= seq![V, I, E, W]);
    if word_eq(&lw, &t) {
        return Some(KeywordKind::View);
    }
    let t: Vec<u8> = vec![W, H, E, N];
    assert(t@ =~= seq![W, H, E, N]);
    if word_eq(&lw, &t) {
        return Some(KeywordKind::When);
    }
    let t: Vec<u8> = vec![W, H, E, R, E];
    assert(t@ =~= seq![W, H, E, R, E]);
    if word_eq(&lw, &t) {
        return Some(KeywordKind::Where);
    }
    let t: Vec<u8> = vec![W, O, R, K];
    assert(t@ =~= seq![W, O, R, K]);
    if word_eq(&lw, &t) {
        return Some(KeywordKind::Work);
    }
    None
}

/// The column-type table. It is an extension point of the CREATE TABLE
/// grammar and is still empty: no word names a data type yet.
pub fn match_data(word: &[u8]) -> (r: Option<DataKind>)
    ensures
        r is None,
{
    None
}

} // verus!
