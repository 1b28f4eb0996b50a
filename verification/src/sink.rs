//! Sinks: the append-only files in which the collector keeps what it
//! receives, one per peer address.
//!
//! A sink is named after the peer address and nothing else, so two
//! connections from one address share a sink and two addresses never do.
//! A sink is only ever appended to. The files themselves are the caller's;
//! this module names them and states what appending does to them.

use vstd::prelude::*;
use vstd::slice::*;
use vstd::string::*;

verus! {

/// The name of the sink of the peer at `peer`.
pub open spec fn sink_name(peer: Seq<char>) -> Seq<char> {
    "logs_"@ + peer + ".txt"@
}

/// The name of the file that keeps the lines of the peer at `peer`.
pub fn sink_file_name(peer: &str) -> (name: String)
    ensures
        name@ == sink_name(peer@),
{
    let mut name = String::from_str("logs_");
    name.append(peer);
    name.append(".txt");
    name
}

/// The sinks by name, each with all that was appended to it.
pub type Sinks = Map<Seq<char>, Seq<u8>>;

/// What the sink called `name` holds; nothing where there is no such sink.
pub open spec fn content(sinks: Sinks, name: Seq<char>) -> Seq<u8> {
    if sinks.dom().contains(name) {
        sinks[name]
    } else {
        Seq::empty()
    }
}

/// The sinks once `name` was opened: it is created empty unless it exists,
/// and an existing one keeps what it holds.
pub open spec fn opened(sinks: Sinks, name: Seq<char>) -> Sinks {
    sinks.insert(name, content(sinks, name))
}

/// The sinks once `record` was appended to the sink called `name`.
pub open spec fn appended(sinks: Sinks, name: Seq<char>, record: Seq<u8>) -> Sinks {
    sinks.insert(name, content(sinks, name) + record)
}

/// One append by the session of a peer.
pub struct SinkWrite {
    /// The address of the peer whose session appends.
    pub peer: Seq<char>,
    /// The bytes appended.
    pub record: Seq<u8>,
}

/// The sinks once every write of `writes` was done, in order.
pub open spec fn after_writes(sinks: Sinks, writes: Seq<SinkWrite>) -> Sinks
    decreases writes.len(),
{
    if writes.len() == 0 {
        sinks
    } else {
        appended(
            after_writes(sinks, writes.drop_last()),
            sink_name(writes.last().peer),
            writes.last().record,
        )
    }
}

/// The records that `writes` holds for `peer`, one behind the other.
pub open spec fn written_by(writes: Seq<SinkWrite>, peer: Seq<char>) -> Seq<u8>
    decreases writes.len(),
{
    if writes.len() == 0 {
        Seq::empty()
    } else if writes.last().peer == peer {
        written_by(writes.drop_last(), peer) + writes.last().record
    } else {
        written_by(writes.drop_last(), peer)
    }
}

/// Two peer addresses have the same sink only if they are the same address.
pub proof fn law_sink_name_injective(first: Seq<char>, second: Seq<char>)
    ensures
        sink_name(first) == sink_name(second) <==> first == second,
{
    if sink_name(first) == sink_name(second) {
        let head = "logs_"@;
        let tail = ".txt"@;
        assert(first.len() == second.len()) by {
            assert(sink_name(first).len() == head.len() + first.len() + tail.len());
            assert(sink_name(second).len() == head.len() + second.len() + tail.len());
        }
        assert forall|i: int| 0 <= i < first.len() implies first[i] == second[i] by {
            assert(sink_name(first)[head.len() + i] == first[i]);
            assert(sink_name(second)[head.len() + i] == second[i]);
        }
        assert(first =~= second);
    }
}

/// Writes done in two parts leave what they leave done as one.
pub proof fn lemma_writes_concat(sinks: Sinks, first: Seq<SinkWrite>, second: Seq<SinkWrite>)
    ensures
        after_writes(sinks, first + second) == after_writes(after_writes(sinks, first), second),
    decreases second.len(),
{
    if second.len() == 0 {
        assert(first + second == first);
    } else {
        lemma_writes_concat(sinks, first, second.drop_last());
        assert((first + second).drop_last() == first + second.drop_last());
        assert((first + second).last() == second.last());
    }
}

/// Append-only sinks: whatever sessions write and in whatever order their
/// writes fall, the sink of a peer afterwards holds what it held before,
/// unchanged, followed by the records of that peer in the order written,
/// and by nothing else.
pub proof fn law_sink_content(sinks: Sinks, writes: Seq<SinkWrite>, peer: Seq<char>)
    ensures
        content(after_writes(sinks, writes), sink_name(peer)) == content(sinks, sink_name(peer))
            + written_by(writes, peer),
    decreases writes.len(),
{
    if writes.len() == 0 {
    } else {
        law_sink_content(sinks, writes.drop_last(), peer);
        law_sink_name_injective(writes.last().peer, peer);
    }
}

/// Isolation: what the session of one peer appends never shows in the
/// sink of a peer at another address.
pub proof fn law_isolation(sinks: Sinks, writes: Seq<SinkWrite>, peer: Seq<char>)
    requires
        forall|i: int| 0 <= i < writes.len() ==> (#[trigger] writes[i]).peer != peer,
    ensures
        content(after_writes(sinks, writes), sink_name(peer)) == content(sinks, sink_name(peer)),
    decreases writes.len(),
{
    law_sink_content(sinks, writes, peer);
    lemma_nothing_written(writes, peer);
}

/// Writes of other peers hold no record for `peer`.
proof fn lemma_nothing_written(writes: Seq<SinkWrite>, peer: Seq<char>)
    requires
        forall|i: int| 0 <= i < writes.len() ==> (#[trigger] writes[i]).peer != peer,
    ensures
        written_by(writes, peer) == Seq::<u8>::empty(),
    decreases writes.len(),
{
    if writes.len() > 0 {
        assert(writes.last() == writes[writes.len() - 1]);
        assert forall|i: int| 0 <= i < writes.drop_last().len() implies (
        #[trigger] writes.drop_last()[i]).peer != peer by {
            assert(writes.drop_last()[i] == writes[i]);
        }
        lemma_nothing_written(writes.drop_last(), peer);
    }
}

/// Reconnect resumption: when a connection drops and the peer connects
/// again, from the same address, the later session appends to the same
/// sink, behind everything the earlier one left there; what the sink held
/// is neither rewritten nor cut short.
pub proof fn law_reconnect_resumption(
    sinks: Sinks,
    earlier: Seq<SinkWrite>,
    later: Seq<SinkWrite>,
    peer: Seq<char>,
)
    ensures
        ({
            let dropped = after_writes(sinks, earlier);
            let resumed = after_writes(sinks, earlier + later);
            let name = sink_name(peer);
            &&& content(resumed, name) == content(dropped, name) + written_by(later, peer)
            &&& content(resumed, name).subrange(0, content(dropped, name).len() as int)
                == content(dropped, name)
            &&& content(dropped, name) == content(sinks, name) + written_by(earlier, peer)
        }),
{
    lemma_writes_concat(sinks, earlier, later);
    law_sink_content(sinks, earlier, peer);
    law_sink_content(after_writes(sinks, earlier), later, peer);
    let dropped = content(after_writes(sinks, earlier), sink_name(peer));
    assert((dropped + written_by(later, peer)).subrange(0, dropped.len() as int) == dropped);
}

/// Sinks kept in memory: by name, each with all that was appended to it.
///
/// It does what the collector asks of the directory that holds its sinks:
/// a sink comes to be when it is first opened, and from then on only
/// grows.
pub struct MemorySinks {
    /// The names of the sinks, each once.
    names: Vec<String>,
    /// What the sinks hold, in the order of `names`.
    contents: Vec<Vec<u8>>,
}

/// Where the sink called `name` stands in `names`.
spec fn place_of(names: Seq<String>, name: Seq<char>) -> int {
    choose|i: int| 0 <= i < names.len() && names[i]@ == name
}

/// There is a sink called `name` among `names`.
spec fn is_named(names: Seq<String>, name: Seq<char>) -> bool {
    exists|i: int| 0 <= i < names.len() && names[i]@ == name
}

impl View for MemorySinks {
    type V = Sinks;

    closed spec fn view(&self) -> Sinks {
        Map::new(
            |name: Seq<char>| is_named(self.names@, name),
            |name: Seq<char>| self.contents@[place_of(self.names@, name)]@,
        )
    }
}

impl MemorySinks {
    #[verifier::type_invariant]
    spec fn well_formed(&self) -> bool {
        &&& self.names@.len() == self.contents@.len()
        &&& forall|i: int, j: int|
            0 <= i < j < self.names@.len() ==> self.names@[i]@ != self.names@[j]@
    }

    /// No sinks at all.
    pub fn new() -> (sinks: MemorySinks)
        ensures
            sinks@ == Map::<Seq<char>, Seq<u8>>::empty(),
    {
        let sinks = MemorySinks { names: Vec::new(), contents: Vec::new() };
        assert(sinks@ =~= Map::<Seq<char>, Seq<u8>>::empty());
        sinks
    }

    /// Where the sink called `name` stands, if there is one.
    fn find(&self, name: &str) -> (found: Option<usize>)
        ensures
            found is Some <==> is_named(self.names@, name@),
            found matches Some(at) ==> at < self.names@.len() && self.names@[at as int]@ == name@
                && place_of(self.names@, name@) == at,
    {
        proof {
            use_type_invariant(self);
        }
        let wanted = String::from_str(name);
        let mut at: usize = 0;
        while at < self.names.len()
            invariant
                at <= self.names@.len(),
                wanted@ == name@,
                forall|i: int| 0 <= i < at ==> self.names@[i]@ != name@,
                forall|i: int, j: int|
                    0 <= i < j < self.names@.len() ==> self.names@[i]@ != self.names@[j]@,
            decreases self.names@.len() - at,
        {
            if self.names[at] == wanted {
                proof {
                    assert(is_named(self.names@, name@));
                    let place = place_of(self.names@, name@);
                    assert(self.names@[place]@ == self.names@[at as int]@);
                }
                return Some(at);
            }
            at += 1;
        }
        None
    }

    /// What the sink called `name` holds; nothing where there is no such
    /// sink.
    pub fn content(&self, name: &str) -> (held: Vec<u8>)
        ensures
            held@ == content(self@, name@),
    {
        proof {
            use_type_invariant(self);
        }
        match self.find(name) {
            Some(at) => slice_to_vec(self.contents[at].as_slice()),
            None => Vec::new(),
        }
    }

    /// Opens the sink called `name`: it is created empty unless it exists.
    pub fn open(&mut self, name: &str)
        ensures
            final(self)@ == opened(old(self)@, name@),
    {
        self.append(name, &[]);
        proof {
            assert(content(old(self)@, name@) + Seq::<u8>::empty() == content(old(self)@, name@));
        }
    }

    /// Appends `record` to the sink called `name`, which is created first
    /// where it does not exist.
    pub fn append(&mut self, name: &str, record: &[u8])
        ensures
            final(self)@ == appended(old(self)@, name@, record@),
    {
        let found = self.find(name);
        let mut parts = MemorySinks::new();
        core::mem::swap(self, &mut parts);
        proof {
            use_type_invariant(&parts);
        }
        let MemorySinks { mut names, mut contents } = parts;
        let ghost old_names = names@;
        let ghost old_contents = contents@;
        match found {
            Some(at) => {
                let held = &mut contents[at];
                held.extend_from_slice(record);
                *self = MemorySinks { names, contents };
                proof {
                    let grown = appended(old(self)@, name@, record@);
                    assert forall|n: Seq<char>| is_named(old_names, n) implies #[trigger] self@[n]
                        == grown[n] by {
                        let i = place_of(old_names, n);
                        if n != name@ {
                            assert(i != at);
                        }
                    }
                    assert(self@ =~= grown);
                }
            },
            None => {
                names.push(String::from_str(name));
                contents.push(slice_to_vec(record));
                *self = MemorySinks { names, contents };
                proof {
                    let grown = appended(old(self)@, name@, record@);
                    let last = old_names.len() as int;
                    assert(self.names@[last]@ == name@);
                    assert(Seq::<u8>::empty() + record@ == record@);
                    assert forall|n: Seq<char>| is_named(self.names@, n) <==> (is_named(
                        old_names,
                        n,
                    ) || n == name@) by {
                        if is_named(self.names@, n) {
                            let i = place_of(self.names@, n);
                            if i < last {
                                assert(old_names[i]@ == n);
                            }
                        }
                        if is_named(old_names, n) {
                            let i = place_of(old_names, n);
                            assert(self.names@[i]@ == n);
                        }
                    }
                    assert forall|n: Seq<char>| is_named(self.names@, n) implies #[trigger] self@[n]
                        == grown[n] by {
                        let i = place_of(self.names@, n);
                        if n != name@ {
                            assert(i < last);
                            assert(old_names[i]@ == n);
                            assert(place_of(old_names, n) == i);
                        } else {
                            assert(i == last);
                        }
                    }
                    assert(self@ =~= grown);
                }
            },
        }
    }
}

} // verus!
