use crate::common::MumbleResult;
use crate::mumbleproto::{ChannelState, ChannelStateView};
use vstd::prelude::*;

verus! {

/// A snapshot of one channel of the server.
#[derive(Debug, PartialEq, Eq)]
pub struct Channel {
    pub id: u32,
    pub parent: u32,
    pub name: String,
}

pub struct ChannelView {
    pub id: u32,
    pub parent: u32,
    pub name: Seq<char>,
}

impl View for Channel {
    type V = ChannelView;

    open spec fn view(&self) -> ChannelView {
        ChannelView { id: self.id, parent: self.parent, name: self.name@ }
    }
}

impl Clone for Channel {
    fn clone(&self) -> (c: Self)
        ensures
            c == *self,
    {
        Channel { id: self.id, parent: self.parent, name: self.name.clone() }
    }
}

impl Default for Channel {
    fn default() -> (c: Self)
        ensures
            c@ == (ChannelView { id: 0, parent: 0, name: Seq::empty() }),
    {
        Channel { id: 0, parent: 0, name: String::new() }
    }
}

impl Channel {
    /// The channel that a message describes. A field the message leaves out
    /// is zero, or empty for the name.
    pub open spec fn spec_from_message(message: ChannelStateView) -> ChannelView {
        ChannelView {
            id: match message.channel_id {
                Some(id) => id,
                None => 0,
            },
            parent: match message.parent {
                Some(parent) => parent,
                None => 0,
            },
            name: match message.name {
                Some(name) => name,
                None => Seq::empty(),
            },
        }
    }

    pub fn from_message(message: &ChannelState) -> (r: MumbleResult<Self>)
        ensures
            r is Ok,
            r->Ok_0@ == Channel::spec_from_message(message@),
    {
        let id = match message.channel_id {
            Some(id) => id,
            None => 0,
        };
        let parent = match message.parent {
            Some(parent) => parent,
            None => 0,
        };
        let name = match &message.name {
            Some(name) => name.clone(),
            None => String::new(),
        };
        Ok(Self { id, parent, name })
    }
}

/// No two entries of the list have the same id.
pub open spec fn unique_ids(list: Seq<ChannelView>) -> bool {
    forall|i: int, j: int| 0 <= i < j < list.len() ==> list[i].id != list[j].id
}

/// Some entry of the list has this id.
pub open spec fn has_id(list: Seq<ChannelView>, id: u32) -> bool {
    exists|i: int| 0 <= i < list.len() && list[i].id == id
}

/// The list after a channel is recorded in it: the channel takes the place
/// of the entry with its id, or comes last if there is no such entry.
pub open spec fn spec_upsert(list: Seq<ChannelView>, channel: ChannelView) -> Seq<ChannelView> {
    if has_id(list, channel.id) {
        list.map_values(
            |entry: ChannelView|
                if entry.id == channel.id {
                    channel
                } else {
                    entry
                },
        )
    } else {
        list.push(channel)
    }
}

/// Recording a channel keeps the ids of a list distinct.
pub proof fn lemma_upsert_keeps_ids_unique(list: Seq<ChannelView>, channel: ChannelView)
    requires
        unique_ids(list),
    ensures
        unique_ids(spec_upsert(list, channel)),
        has_id(spec_upsert(list, channel), channel.id),
{
    let after = spec_upsert(list, channel);
    if has_id(list, channel.id) {
        let k = choose|k: int| 0 <= k < list.len() && list[k].id == channel.id;
        assert(after[k].id == channel.id);
    } else {
        assert(after[list.len() as int].id == channel.id);
    }
}

/// The place of the first channel with this id, if there is one.
fn position_of_id(channels: &Vec<Channel>, id: u32) -> (r: Option<usize>)
    ensures
        match r {
            Some(at) => at < channels@.len() && channels@[at as int].id == id && forall|k: int|
                0 <= k < at ==> channels@[k].id != id,
            None => forall|k: int| 0 <= k < channels@.len() ==> channels@[k].id != id,
        },
{
    let mut i: usize = 0;
    while i < channels.len()
        invariant
            i <= channels@.len(),
            forall|k: int| 0 <= k < i ==> channels@[k].id != id,
        decreases channels@.len() - i,
    {
        if channels[i].id == id {
            return Some(i);
        }
        i = i + 1;
    }
    None
}

/// The channels of a server, in the order in which their ids were first
/// recorded. No two entries have the same id.
#[derive(Debug, PartialEq, Eq)]
pub struct ChannelList {
    channels: Vec<Channel>,
}

impl View for ChannelList {
    type V = Seq<ChannelView>;

    closed spec fn view(&self) -> Seq<ChannelView> {
        self.channels@.map_values(|c: Channel| c@)
    }
}

impl Default for ChannelList {
    fn default() -> (list: Self)
        ensures
            list@ == Seq::<ChannelView>::empty(),
    {
        let list = ChannelList { channels: Vec::new() };
        assert(list@ =~= Seq::<ChannelView>::empty());
        list
    }
}

impl Clone for ChannelList {
    fn clone(&self) -> (list: Self)
        ensures
            list@ == self@,
    {
        proof {
            use_type_invariant(self);
        }
        let mut channels: Vec<Channel> = Vec::new();
        let mut i: usize = 0;
        while i < self.channels.len()
            invariant
                i <= self.channels@.len(),
                channels@ == self.channels@.subrange(0, i as int),
            decreases self.channels@.len() - i,
        {
            channels.push(self.channels[i].clone());
            i = i + 1;
            assert(channels@ =~= self.channels@.subrange(0, i as int));
        }
        assert(channels@ =~= self.channels@);
        ChannelList { channels }
    }
}

impl ChannelList {
    #[verifier::type_invariant]
    pub open spec fn ids_are_unique(&self) -> bool {
        unique_ids(self@)
    }

    /// How many channels the list holds.
    pub fn len(&self) -> (n: usize)
        ensures
            n == self@.len(),
    {
        self.channels.len()
    }

    pub fn is_empty(&self) -> (empty: bool)
        ensures
            empty == (self@.len() == 0),
    {
        self.channels.len() == 0
    }

    /// A copy of the channel at a place in the list, if the list is that
    /// long.
    pub fn get(&self, index: usize) -> (r: Option<Channel>)
        ensures
            index < self@.len() ==> r is Some && r->Some_0@ == self@[index as int],
            index >= self@.len() ==> r is None,
    {
        if index < self.channels.len() {
            Some(self.channels[index].clone())
        } else {
            None
        }
    }

    /// Records a channel. A channel whose id the list already holds takes
    /// the place of the entry with that id; any other comes last.
    pub fn push(&mut self, channel: Channel) -> (r: MumbleResult<()>)
        ensures
            r is Ok,
            final(self)@ == spec_upsert(old(self)@, channel@),
            unique_ids(final(self)@),
    {
        proof {
            use_type_invariant(&*self);
            lemma_upsert_keeps_ids_unique(self@, channel@);
        }
        let ghost before = self@;
        let ghost recorded = channel@;
        let mut channels: Vec<Channel> = Vec::new();
        std::mem::swap(&mut self.channels, &mut channels);
        assert(channels@.map_values(|c: Channel| c@) == before);
        assert forall|k: int| 0 <= k < channels@.len() implies before[k].id == channels@[k].id by {
            assert(before[k] == channels@[k]@);
        }
        match position_of_id(&channels, channel.id) {
            Some(at) => {
                assert(before[at as int].id == recorded.id);
                channels.set(at, channel);
            },
            None => {
                assert(!has_id(before, recorded.id));
                channels.push(channel);
            },
        }
        assert(channels@.map_values(|c: Channel| c@) =~= spec_upsert(before, recorded));
        self.channels = channels;
        Ok(())
    }

    /// A copy of the first channel with exactly this name, if there is one.
    pub fn find(&self, name: &str) -> (r: Option<Channel>)
        ensures
            match r {
                Some(channel) => exists|i: int|
                    0 <= i < self@.len() && self@[i] == channel@ && self@[i].name == name@
                        && forall|j: int| 0 <= j < i ==> self@[j].name != name@,
                None => forall|i: int| 0 <= i < self@.len() ==> self@[i].name != name@,
            },
    {
        let wanted: String = name.to_owned();
        let mut i: usize = 0;
        while i < self.channels.len()
            invariant
                i <= self.channels@.len(),
                wanted@ == name@,
                forall|j: int| 0 <= j < i ==> self@[j].name != name@,
            decreases self.channels@.len() - i,
        {
            if self.channels[i].name == wanted {
                let channel = self.channels[i].clone();
                assert(self@[i as int] == channel@);
                return Some(channel);
            }
            i = i + 1;
        }
        None
    }
}

} // verus!
