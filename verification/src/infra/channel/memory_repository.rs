//! Channels kept in memory, in the order in which they were stored.

use vstd::prelude::*;

use crate::domain::channel::model::{Channel, ChannelView, DraftChannel};
use crate::domain::channel::repository::{
    channel_views, found, has_id, ids_unique, is_first_with_id, is_listed, lemma_create_keeps_ids_unique,
    listed_by, lookup_view, named_like, ChannelRepository,
};
use crate::domain::text::{chars_of, contains_chars, same};
use crate::exception::RepositoryError;

verus! {

/// A store of channels in memory. It never fails for want of storage, and
/// what it holds can always be read.
pub struct MemoryChannelRepository {
    stored: Vec<Channel>,
}

impl MemoryChannelRepository {
    #[verifier::type_invariant]
    spec fn well_formed(self) -> bool {
        ids_unique(channel_views(self.stored@))
    }

    /// An empty store.
    pub fn new() -> (repository: Self)
        ensures
            repository.channels() == Seq::<ChannelView>::empty(),
    {
        let repository = MemoryChannelRepository { stored: Vec::new() };
        assert(repository.channels() =~= Seq::<ChannelView>::empty());
        repository
    }

    /// Where the first channel with the identity `id` stands, if there is
    /// one.
    fn position(&self, id: &str) -> (at: Option<usize>)
        ensures
            match at {
                Some(first) => is_first_with_id(self.channels(), id@, first as int),
                None => !has_id(self.channels(), id@),
            },
    {
        let mut at: usize = 0;
        while at < self.stored.len()
            invariant
                at <= self.stored.len(),
                forall|before: int|
                    0 <= before < at ==> (#[trigger] self.channels()[before]).id != id@,
            decreases self.stored.len() - at,
        {
            if same(self.stored[at].id.as_str(), id) {
                return Some(at);
            }
            at += 1;
        }
        None
    }
}

impl ChannelRepository for MemoryChannelRepository {
    closed spec fn channels(&self) -> Seq<ChannelView> {
        channel_views(self.stored@)
    }

    fn find_by_id(&self, id: &str) -> (answer: Result<Option<Channel>, RepositoryError>)
        ensures
            lookup_view(answer) == found(self.channels(), id@),
            ids_unique(self.channels()),
    {
        proof {
            use_type_invariant(self);
        }
        match self.position(id) {
            Some(first) => {
                let channel = self.stored[first].clone();
                proof {
                    let chosen = choose|at: int| is_first_with_id(self.channels(), id@, at);
                    assert(chosen == first) by {
                        if chosen < first {
                            assert(self.channels()[chosen].id != id@);
                        } else if first < chosen {
                            assert(self.channels()[first as int].id != id@);
                        }
                    }
                }
                Ok(Some(channel))
            },
            None => {
                proof {
                    assert forall|at: int| !is_first_with_id(self.channels(), id@, at) by {
                        if is_first_with_id(self.channels(), id@, at) {
                            assert(self.channels()[at].id == id@);
                        }
                    }
                }
                Ok(None)
            },
        }
    }

    fn search_by_name(&self, pattern: &str) -> (answer: Result<Vec<Channel>, RepositoryError>)
        ensures
            answer is Ok,
    {
        let wanted = chars_of(pattern);
        let mut list: Vec<Channel> = Vec::new();
        let mut at: usize = 0;
        assert(self.channels().take(0) =~= Seq::<ChannelView>::empty());
        while at < self.stored.len()
            invariant
                at <= self.stored.len(),
                wanted@ == pattern@,
                channel_views(list@) == named_like(self.channels().take(at as int), pattern@),
            decreases self.stored.len() - at,
        {
            let name = chars_of(self.stored[at].name.as_str());
            let ghost before = self.channels().take(at as int);
            let ghost next = self.channels()[at as int];
            proof {
                assert(self.channels().take(at + 1) =~= before.push(next));
                before.lemma_filter_push(next, listed_by(pattern@));
            }
            if contains_chars(&name, &wanted) {
                let channel = self.stored[at].clone();
                assert(is_listed(next, pattern@));
                assert(channel_views(list@.push(channel)) =~= channel_views(list@).push(next));
                list.push(channel);
            }
            at += 1;
        }
        assert(self.channels().take(at as int) =~= self.channels());
        Ok(list)
    }

    fn create(&mut self, channel: DraftChannel) -> (answer: Result<(), RepositoryError>)
        ensures
            answer is Ok <==> !has_id(old(self).channels(), channel@.id),
            answer matches Err(error) ==> error@ == DraftChannel::insert_failure_of(channel@),
            ids_unique(old(self).channels()),
            ids_unique(final(self).channels()),
    {
        proof {
            use_type_invariant(&*self);
        }
        if self.position(channel.id.as_str()).is_some() {
            return Err(channel.insert_failure());
        }
        let ghost draft = channel@;
        let ghost before = self.channels();
        proof {
            lemma_create_keeps_ids_unique(before, draft);
        }
        let mut all: Vec<Channel> = Vec::new();
        assert(ids_unique(channel_views(all@)));
        std::mem::swap(&mut self.stored, &mut all);
        all.push(channel.into_channel());
        assert(channel_views(all@) =~= before.push(draft));
        self.stored = all;
        Ok(())
    }
}

} // verus!
