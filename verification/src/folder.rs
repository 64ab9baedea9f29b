use vstd::prelude::*;

use crate::events::FolderEvent;
use crate::events::lemma_codes_injective;
use crate::events::lemma_all_events_distinct;
use crate::events::lemma_names_injective;
use crate::registry::EventEntry;
use crate::registry::EventRegistry;
use crate::registry::codes_of;
use crate::registry::entries_valid;
use crate::registry::names_of;

verus! {

/// The (name, code) pairs declared for the folder event domain, in
/// declaration order: the schema artifact's content as plain values.
pub fn folder_entries() -> (r: Vec<EventEntry>)
    ensures
        r@.len() == FolderEvent::all_events_spec().len(),
        forall|i: int|
            0 <= i < r@.len() ==> (#[trigger] r@[i]).name@
                == FolderEvent::all_events_spec()[i].name_spec(),
        forall|i: int|
            0 <= i < r@.len() ==> (#[trigger] r@[i]).code as int
                == FolderEvent::all_events_spec()[i].code_spec(),
{
    let events = FolderEvent::values();
    let n = events.len();
    let mut out: Vec<EventEntry> = Vec::new();
    let mut i: usize = 0;
    while i < n
        invariant
            n == events@.len(),
            events@ == FolderEvent::all_events_spec(),
            i <= n,
            out@.len() == i,
            forall|k: int|
                0 <= k < i ==> (#[trigger] out@[k]).name@
                    == FolderEvent::all_events_spec()[k].name_spec(),
            forall|k: int|
                0 <= k < i ==> (#[trigger] out@[k]).code as int
                    == FolderEvent::all_events_spec()[k].code_spec(),
        decreases n - i,
    {
        let e = events[i];
        let name = e.name().to_owned();
        let code = e.value();
        out.push(EventEntry { name, code });
        i += 1;
    }
    out
}

/// The declared folder schema is a valid artifact: non-empty, with no
/// code and no name declared twice.
pub proof fn lemma_folder_entries_valid(s: Seq<EventEntry>)
    requires
        s.len() == FolderEvent::all_events_spec().len(),
        forall|i: int|
            0 <= i < s.len() ==> (#[trigger] s[i]).name@
                == FolderEvent::all_events_spec()[i].name_spec(),
        forall|i: int|
            0 <= i < s.len() ==> (#[trigger] s[i]).code as int
                == FolderEvent::all_events_spec()[i].code_spec(),
    ensures
        entries_valid(s),
{
    lemma_all_events_distinct();
    assert(codes_of(s).len() == s.len());
    assert(names_of(s).len() == s.len());
    assert forall|i: int, j: int|
        0 <= i < codes_of(s).len() && 0 <= j < codes_of(s).len() && i != j
        implies codes_of(s)[i] != codes_of(s)[j] by {
        assert(codes_of(s)[i] == s[i].code as int);
        assert(codes_of(s)[j] == s[j].code as int);
        lemma_codes_injective(
            FolderEvent::all_events_spec()[i],
            FolderEvent::all_events_spec()[j],
        );
    }
    assert forall|i: int, j: int|
        0 <= i < names_of(s).len() && 0 <= j < names_of(s).len() && i != j
        implies names_of(s)[i] != names_of(s)[j] by {
        assert(names_of(s)[i] == s[i].name@);
        assert(names_of(s)[j] == s[j].name@);
        lemma_names_injective(
            FolderEvent::all_events_spec()[i],
            FolderEvent::all_events_spec()[j],
        );
    }
    assert(codes_of(s).no_duplicates());
    assert(names_of(s).no_duplicates());
}

/// The registry of the folder event domain, built from the declared
/// events. The declared schema is valid, so construction succeeds.
pub fn folder_registry() -> (r: EventRegistry)
    ensures
        r.wf(),
        r.codes().len() == FolderEvent::all_events_spec().len(),
        r.names().len() == FolderEvent::all_events_spec().len(),
        forall|i: int|
            0 <= i < r.names().len() ==> #[trigger] r.names()[i]
                == FolderEvent::all_events_spec()[i].name_spec(),
        forall|i: int|
            0 <= i < r.codes().len() ==> #[trigger] r.codes()[i]
                == FolderEvent::all_events_spec()[i].code_spec(),
{
    let entries = folder_entries();
    proof {
        lemma_folder_entries_valid(entries@);
        assert forall|i: int| 0 <= i < entries@.len()
            implies #[trigger] codes_of(entries@)[i]
                == FolderEvent::all_events_spec()[i].code_spec() by {
            assert(codes_of(entries@)[i] == entries@[i].code as int);
        }
        assert forall|i: int| 0 <= i < entries@.len()
            implies #[trigger] names_of(entries@)[i]
                == FolderEvent::all_events_spec()[i].name_spec() by {
            assert(names_of(entries@)[i] == entries@[i].name@);
        }
    }
    let r = EventRegistry::from_entries(entries);
    r.unwrap()
}

} // verus!
