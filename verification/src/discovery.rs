//! Decisions over discovered objects: which listed objects a lookup selects,
//! which sessions have attached clients, and what a scoped operation returns
//! once its cleanup has run.

use vstd::prelude::*;
use vstd::utf8::{decode_utf8, valid_utf8};
use crate::error::{Error, ErrorView};
use crate::numeric::{int_error_text, parse_unsigned};
use crate::snapshot::{present, typed_field_error, unsigned_field, utf8_field_error, SessionSnapshot};
use crate::target::SessionName;

verus! {

/// `r` lists, in increasing order, exactly the positions `i` below `len` at
/// which `selected(i)` holds.
pub open spec fn lists_positions(r: Seq<usize>, len: int, selected: spec_fn(int) -> bool) -> bool {
    &&& forall|j: int| 0 <= j < r.len() ==> (#[trigger] r[j]) < len && selected(r[j] as int)
    &&& forall|j: int, k: int| 0 <= j < k < r.len() ==> (#[trigger] r[j]) < (#[trigger] r[k])
    &&& forall|i: int| 0 <= i < len && #[trigger] selected(i) ==> exists|j: int| 0 <= j < r.len() && r[j] == i
}

/// The positions of the identities equal to `id`, in order.
pub fn matching_ids(ids: &[u64], id: u64) -> (r: Vec<usize>)
    ensures
        lists_positions(r@, ids@.len() as int, |i: int| ids@[i] == id),
{
    let ghost selected = |i: int| ids@[i] == id;
    let mut r: Vec<usize> = Vec::new();
    let mut k: usize = 0;
    while k < ids.len()
        invariant
            k <= ids@.len(),
            selected == (|i: int| ids@[i] == id),
            forall|j: int| 0 <= j < r@.len() ==> (#[trigger] r@[j]) < k && selected(r@[j] as int),
            forall|j: int, l: int| 0 <= j < l < r@.len() ==> (#[trigger] r@[j]) < (#[trigger] r@[l]),
            forall|i: int| 0 <= i < k && #[trigger] selected(i) ==> exists|j: int| 0 <= j < r@.len() && r@[j] == i,
        decreases ids.len() - k,
    {
        let ghost before = r@;
        if ids[k] == id {
            r.push(k);
            assert(r@[r@.len() - 1] == k);
        }
        assert forall|i: int| 0 <= i < k + 1 && #[trigger] selected(i) implies exists|j: int| 0 <= j < r@.len() && r@[j] == i by {
            if i == k {
                assert(r@[r@.len() - 1] == k);
            } else {
                let j = choose|j: int| 0 <= j < before.len() && before[j] == i;
                assert(r@[j] == before[j]);
            }
        }
        k = k + 1;
    }
    r
}

/// The positions of the names equal to `name`, in order; an absent name
/// matches nothing.
pub fn matching_names(names: &[Option<SessionName>], name: &SessionName) -> (r: Vec<usize>)
    ensures
        lists_positions(r@, names@.len() as int, |i: int| names@[i] matches Some(n) && n@ == name@),
{
    let ghost selected = |i: int| names@[i] matches Some(n) && n@ == name@;
    let mut r: Vec<usize> = Vec::new();
    let mut k: usize = 0;
    while k < names.len()
        invariant
            k <= names@.len(),
            selected == (|i: int| names@[i] matches Some(n) && n@ == name@),
            forall|j: int| 0 <= j < r@.len() ==> (#[trigger] r@[j]) < k && selected(r@[j] as int),
            forall|j: int, l: int| 0 <= j < l < r@.len() ==> (#[trigger] r@[j]) < (#[trigger] r@[l]),
            forall|i: int| 0 <= i < k && #[trigger] selected(i) ==> exists|j: int| 0 <= j < r@.len() && r@[j] == i,
        decreases names.len() - k,
    {
        let hit = match &names[k] {
            Some(n) => n == name,
            None => false,
        };
        let ghost before = r@;
        if hit {
            r.push(k);
            assert(r@[r@.len() - 1] == k);
        }
        assert forall|i: int| 0 <= i < k + 1 && #[trigger] selected(i) implies exists|j: int| 0 <= j < r@.len() && r@[j] == i by {
            if i == k {
                assert(r@[r@.len() - 1] == k);
            } else {
                let j = choose|j: int| 0 <= j < before.len() && before[j] == i;
                assert(r@[j] == before[j]);
            }
        }
        k = k + 1;
    }
    r
}

/// Whether a session row reports attached clients: `Err(None)` stands for a
/// count that is not UTF-8, reported with the standard library's description.
pub open spec fn session_attached(m: Map<Seq<char>, Seq<u8>>) -> Result<bool, Option<ErrorView>> {
    if !present(m, "session_attached"@) {
        Ok(false)
    } else if !valid_utf8(m["session_attached"@]) {
        Err(None)
    } else {
        match parse_unsigned(decode_utf8(m["session_attached"@]), u32::MAX as nat) {
            Ok(n) => Ok(n > 0),
            Err(k) => Err(Some(typed_field_error("session_attached"@, int_error_text(k)))),
        }
    }
}

/// `e` is the error that a failed `session_attached` outcome stands for.
pub open spec fn attached_error(outcome: Result<bool, Option<ErrorView>>, e: ErrorView) -> bool {
    match outcome {
        Err(Some(x)) => e == x,
        Err(None) => utf8_field_error(e, "session_attached"@),
        Ok(_) => false,
    }
}

/// The positions of the sessions with at least one attached client, or the
/// failure of the first session whose count does not decode.
pub fn attached_indices(sessions: &[SessionSnapshot]) -> (r: Result<Vec<usize>, Error>)
    ensures
        match r {
            Ok(v) => (forall|i: int| 0 <= i < sessions@.len() ==> #[trigger] session_attached(sessions@[i]@) is Ok)
                && lists_positions(v@, sessions@.len() as int, |i: int| session_attached(sessions@[i]@) == Ok::<bool, Option<ErrorView>>(true)),
            Err(e) => exists|i: int| 0 <= i < sessions@.len()
                && (forall|j: int| 0 <= j < i ==> #[trigger] session_attached(sessions@[j]@) is Ok)
                && attached_error(#[trigger] session_attached(sessions@[i]@), e@),
        },
{
    let ghost selected = |i: int| session_attached(sessions@[i]@) == Ok::<bool, Option<ErrorView>>(true);
    let mut r: Vec<usize> = Vec::new();
    let mut k: usize = 0;
    while k < sessions.len()
        invariant
            k <= sessions@.len(),
            selected == (|i: int| session_attached(sessions@[i]@) == Ok::<bool, Option<ErrorView>>(true)),
            forall|i: int| 0 <= i < k ==> #[trigger] session_attached(sessions@[i]@) is Ok,
            forall|j: int| 0 <= j < r@.len() ==> (#[trigger] r@[j]) < k && selected(r@[j] as int),
            forall|j: int, l: int| 0 <= j < l < r@.len() ==> (#[trigger] r@[j]) < (#[trigger] r@[l]),
            forall|i: int| 0 <= i < k && #[trigger] selected(i) ==> exists|j: int| 0 <= j < r@.len() && r@[j] == i,
        decreases sessions.len() - k,
    {
        let count = sessions[k].attached_clients();
        let ghost m = sessions@[k as int]@;
        proof {
            if present(m, "session_attached"@) {
                crate::numeric::lemma_parse_unsigned_bound(decode_utf8(m["session_attached"@]), u32::MAX as nat);
            }
        }
        match count {
            Err(e) => {
                assert(attached_error(session_attached(sessions@[k as int]@), e@));
                return Err(e);
            },
            Ok(c) => {
                let hit = match c {
                    Some(n) => n > 0,
                    None => false,
                };
                assert(session_attached(m) == Ok::<bool, Option<ErrorView>>(hit));
                let ghost before = r@;
                if hit {
                    r.push(k);
                    assert(r@[r@.len() - 1] == k);
                }
                assert forall|i: int| 0 <= i < k + 1 && #[trigger] selected(i) implies exists|j: int| 0 <= j < r@.len() && r@[j] == i by {
                    if i == k {
                        assert(r@[r@.len() - 1] == k);
                    } else {
                        let j = choose|j: int| 0 <= j < before.len() && before[j] == i;
                        assert(r@[j] == before[j]);
                    }
                }
            },
        }
        k = k + 1;
    }
    Ok(r)
}

/// What a scoped operation returns after its cleanup: the operation's own
/// failure first, then a cleanup failure wrapped with the operation's name,
/// else the operation's value.
pub fn cleanup_outcome<T>(outcome: Result<T, Error>, cleanup: Result<(), Error>, operation: &'static str) -> (r: Result<T, Error>)
    ensures
        outcome is Err ==> r == outcome,
        outcome is Ok && cleanup is Ok ==> r == outcome,
        outcome is Ok ==> (cleanup matches Err(c) ==> (r matches Err(e)
            && e@ == (ErrorView::Cleanup { operation: operation@, source: Box::new(c@) }))),
{
    match (outcome, cleanup) {
        (Ok(value), Ok(())) => Ok(value),
        (Ok(_), Err(source)) => Err(Error::Cleanup { operation, source: Box::new(source) }),
        (Err(source), _) => Err(source),
    }
}

} // verus!
