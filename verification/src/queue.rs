//! The queue of builds that wait to be made, held in memory.

use crate::record::text_view;
use crate::text::same_text;
use vstd::prelude::*;
use vstd::string::StringExecFns;

verus! {

/// A build that waits in the queue. A smaller priority is more urgent.
#[derive(Debug, PartialEq, Eq)]
pub struct QueueEntry {
    pub name: String,
    pub version: String,
    pub priority: i32,
    pub origin: Option<String>,
}

/// A queue entry as mathematics.
pub struct QueueEntryView {
    pub name: Seq<char>,
    pub version: Seq<char>,
    pub priority: int,
    pub origin: Option<Seq<char>>,
}

impl View for QueueEntry {
    type V = QueueEntryView;

    open spec fn view(&self) -> QueueEntryView {
        QueueEntryView {
            name: self.name@,
            version: self.version@,
            priority: self.priority as int,
            origin: text_view(self.origin),
        }
    }
}

/// Whether a build of the release waits among the entries.
pub open spec fn queued(entries: Seq<QueueEntryView>, name: Seq<char>, version: Seq<char>) -> bool {
    exists|i: int|
        0 <= i < entries.len() && (#[trigger] entries[i]).name == name && entries[i].version
            == version
}

/// The builds that wait to be made, in the order in which they were added.
#[derive(Debug)]
pub struct BuildQueue {
    entries: Vec<QueueEntry>,
}

impl View for BuildQueue {
    type V = Seq<QueueEntryView>;

    closed spec fn view(&self) -> Seq<QueueEntryView> {
        self.entries@.map_values(|e: QueueEntry| e@)
    }
}

impl BuildQueue {
    /// A queue in which nothing waits.
    pub fn new() -> (queue: BuildQueue)
        ensures
            queue@ == Seq::<QueueEntryView>::empty(),
    {
        let queue = BuildQueue { entries: Vec::new() };
        assert(queue@ =~= Seq::<QueueEntryView>::empty());
        queue
    }

    /// Whether a build of the release waits in the queue.
    pub fn has_build_queued(&self, name: &str, version: &str) -> (b: bool)
        ensures
            b == queued(self@, name@, version@),
    {
        let mut i: usize = 0;
        while i < self.entries.len()
            invariant
                0 <= i <= self.entries@.len(),
                forall|k: int|
                    0 <= k < i ==> !((#[trigger] self@[k]).name == name@ && self@[k].version
                        == version@),
            decreases self.entries@.len() - i,
        {
            let e = &self.entries[i];
            if same_text(e.name.as_str(), name) && same_text(e.version.as_str(), version) {
                assert(self@[i as int] == e@);
                return true;
            }
            i += 1;
        }
        false
    }

    /// Adds a build of the release at the end of the queue, whether or not
    /// one waits there already.
    pub fn add_crate(&mut self, name: &str, version: &str, priority: i32, origin: Option<&str>)
        ensures
            final(self)@ == old(self)@.push(
                QueueEntryView {
                    name: name@,
                    version: version@,
                    priority: priority as int,
                    origin: match origin {
                        Some(o) => Some(o@),
                        None => None,
                    },
                },
            ),
    {
        let entry = QueueEntry {
            name: String::from_str(name),
            version: String::from_str(version),
            priority,
            origin: match origin {
                Some(o) => Some(String::from_str(o)),
                None => None,
            },
        };
        let ghost before = self.entries@;
        self.entries.push(entry);
        assert(self@ =~= before.map_values(|e: QueueEntry| e@).push(entry@));
    }

    /// How many builds wait in the queue.
    pub fn pending_count(&self) -> (n: usize)
        ensures
            n == self@.len(),
    {
        self.entries.len()
    }
}

} // verus!
