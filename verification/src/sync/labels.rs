//! The labels of one ticket, resolved tag by tag.
//!
//! A tag whose label is in the cache costs nothing. For any other tag the
//! labels of the repository are listed; the label is taken from the
//! listing, or created, or the tag is dropped. The resolver says which
//! request is due next and takes its outcome.

use crate::github::issues::LabelInfo;
use crate::github::labels::{get_or_create_label, label_decision, LabelDecision, LabelDecisionView};
use crate::name_map::{lemma_lookup_text, lemma_upsert_text, lookup_in, text_pairs, upsert, NameMap};
use crate::text::{copy_strings, lowercase, option_view, to_lowercase, views};
use vstd::prelude::*;

verus! {

/// Where the resolution of the labels of one ticket stands.
#[derive(Debug)]
pub struct LabelResolver {
    /// The tags to resolve, in order.
    pub tags: Vec<String>,
    /// The index of the tag that is due.
    pub next: usize,
    /// The ids of the labels of the tags before it, as far as they have one.
    pub label_ids: Vec<String>,
}

/// The model of a [`LabelResolver`].
pub struct LabelResolverView {
    pub tags: Seq<Seq<char>>,
    pub next: int,
    pub label_ids: Seq<Seq<char>>,
}

impl View for LabelResolver {
    type V = LabelResolverView;

    open spec fn view(&self) -> LabelResolverView {
        LabelResolverView {
            tags: views(self.tags@),
            next: self.next as int,
            label_ids: views(self.label_ids@),
        }
    }
}

/// A label to create.
#[derive(Debug)]
pub struct NewLabel {
    pub name: String,
    pub color: String,
}

/// The model of a [`NewLabel`].
pub struct NewLabelView {
    pub name: Seq<char>,
    pub color: Seq<char>,
}

impl View for NewLabel {
    type V = NewLabelView;

    open spec fn view(&self) -> NewLabelView {
        NewLabelView { name: self.name@, color: self.color@ }
    }
}

/// The resolver after every tag from the one that is due up to the first
/// whose label the cache lacks: the ids of their labels are taken from the
/// cache, by the tag in lower case.
pub open spec fn after_cached(state: LabelResolverView, cache: Seq<(Seq<char>, Seq<char>)>) -> LabelResolverView
    decreases state.tags.len() - state.next,
{
    if state.next < 0 || state.next >= state.tags.len() {
        state
    } else {
        match lookup_in(cache, lowercase(state.tags[state.next])) {
            Some(id) => after_cached(
                LabelResolverView {
                    next: state.next + 1,
                    label_ids: state.label_ids.push(id),
                    ..state
                },
                cache,
            ),
            None => state,
        }
    }
}

/// The resolver after the tag that is due was dropped.
pub open spec fn after_drop(state: LabelResolverView) -> LabelResolverView {
    if state.next >= state.tags.len() {
        state
    } else {
        LabelResolverView { next: state.next + 1, ..state }
    }
}

/// The resolver after the tag that is due got the label with the given id.
pub open spec fn after_label(state: LabelResolverView, id: Seq<char>) -> LabelResolverView {
    if state.next >= state.tags.len() {
        state
    } else {
        LabelResolverView {
            next: state.next + 1,
            label_ids: state.label_ids.push(id),
            ..state
        }
    }
}

/// The cache after the tag that is due got the label with the given id.
pub open spec fn cache_with_label(
    state: LabelResolverView,
    cache: Seq<(Seq<char>, Seq<char>)>,
    id: Seq<char>,
) -> Seq<(Seq<char>, Seq<char>)> {
    if state.next >= state.tags.len() {
        cache
    } else {
        upsert(cache, lowercase(state.tags[state.next]), id)
    }
}

impl LabelResolver {
    /// The resolver for the tags of a ticket. Where tags are not synced,
    /// there is nothing to resolve.
    pub fn start(sync_tags: bool, tags: &[String]) -> (resolver: LabelResolver)
        ensures
            resolver@ == (LabelResolverView {
                tags: if sync_tags {
                    views(tags@)
                } else {
                    Seq::empty()
                },
                next: 0,
                label_ids: Seq::empty(),
            }),
    {
        let tags = if sync_tags {
            copy_strings(tags)
        } else {
            Vec::new()
        };
        let resolver = LabelResolver { tags, next: 0, label_ids: Vec::new() };
        assert(resolver@.label_ids =~= Seq::<Seq<char>>::empty());
        assert(!sync_tags ==> resolver@.tags =~= Seq::<Seq<char>>::empty());
        resolver
    }

    /// Whether every tag has been dealt with.
    pub fn is_finished(&self) -> (finished: bool)
        ensures
            finished == (self.next >= self.tags@.len()),
    {
        self.next >= self.tags.len()
    }

    /// Takes the labels of the next tags from the cache, as far as they are
    /// there: see [`after_cached`]. Afterwards either every tag has been
    /// dealt with, or the labels of the repository are to be listed for the
    /// tag that is due.
    pub fn take_cached(&mut self, cache: &NameMap<String>)
        ensures
            final(self)@ == after_cached(old(self)@, text_pairs(cache.pairs())),
            final(self).next < final(self).tags@.len() ==> lookup_in(
                text_pairs(cache.pairs()),
                lowercase(final(self).tags@[final(self).next as int]@),
            ) is None,
    {
        let ghost pairs = text_pairs(cache.pairs());
        let ghost start = self@;
        while self.next < self.tags.len()
            invariant
                pairs == text_pairs(cache.pairs()),
                start == old(self)@,
                after_cached(self@, pairs) == after_cached(start, pairs),
            decreases self.tags@.len() - self.next,
        {
            let key = to_lowercase(self.tags[self.next].as_str());
            proof {
                lemma_lookup_text(cache.pairs(), key@);
                assert(self@.tags[self.next as int] == self.tags@[self.next as int]@);
            }
            match cache.get(key.as_str()) {
                Some(id) => {
                    let ghost before = self@;
                    self.label_ids.push(id.clone());
                    self.next = self.next + 1;
                    assert(self@.label_ids =~= before.label_ids.push(id@));
                    assert(self@ == (LabelResolverView {
                        next: before.next + 1,
                        label_ids: before.label_ids.push(id@),
                        ..before
                    }));
                },
                None => {
                    assert(after_cached(self@, pairs) == self@);
                    return ;
                },
            }
        }
    }

    /// Takes the listing of the labels of the repository for the tag that is
    /// due.
    ///
    /// A failed listing drops the tag. A label of the tag's name, ASCII case
    /// ignored, is taken and remembered in the cache under the tag in lower
    /// case. Without one the tag is dropped, or, where missing labels are
    /// created, the label to create is returned and the tag stays due.
    pub fn labels_listed(
        &mut self,
        cache: &mut NameMap<String>,
        listing: &Result<Vec<LabelInfo>, String>,
        create_missing: bool,
    ) -> (create: Option<NewLabel>)
        ensures
            old(self).next >= old(self).tags@.len() ==> create is None && final(self)@ == old(
                self,
            )@ && text_pairs(final(cache).pairs()) == text_pairs(old(cache).pairs()),
            old(self).next < old(self).tags@.len() ==> ({
                let tag = old(self).tags@[old(self).next as int]@;
                let before = text_pairs(old(cache).pairs());
                let after = text_pairs(final(cache).pairs());
                match *listing {
                    Err(_) => create is None && final(self)@ == after_drop(old(self)@) && after
                        == before,
                    Ok(labels) => match label_decision(views(labels@), tag, create_missing) {
                        LabelDecisionView::Existing(id) => create is None && final(self)@
                            == after_label(old(self)@, id) && after == cache_with_label(
                            old(self)@,
                            before,
                            id,
                        ),
                        LabelDecisionView::Absent => create is None && final(self)@ == after_drop(
                            old(self)@,
                        ) && after == before,
                        LabelDecisionView::Create { color } => option_view(create) == Some(
                            NewLabelView { name: tag, color },
                        ) && final(self)@ == old(self)@ && after == before,
                    },
                }
            }),
    {
        if self.next >= self.tags.len() {
            return None;
        }
        assert(self@.tags[self.next as int] == self.tags@[self.next as int]@);
        let labels = match listing {
            Ok(labels) => labels,
            Err(_) => {
                self.next = self.next + 1;
                return None;
            },
        };
        let tag = self.tags[self.next].clone();
        match get_or_create_label(labels.as_slice(), tag.as_str(), create_missing) {
            LabelDecision::Existing(id) => {
                let key = to_lowercase(tag.as_str());
                let ghost before = self@;
                proof {
                    lemma_upsert_text(cache.pairs(), key@, id);
                }
                self.label_ids.push(id.clone());
                cache.insert(key, id);
                self.next = self.next + 1;
                assert(self@.label_ids =~= before.label_ids.push(id@));
                None
            },
            LabelDecision::Absent => {
                self.next = self.next + 1;
                None
            },
            LabelDecision::Create { color } => Some(NewLabel { name: tag, color }),
        }
    }

    /// Takes the outcome of creating the label for the tag that is due: the
    /// new label is taken and remembered in the cache under the tag in lower
    /// case; after a failure the tag is dropped.
    pub fn label_created(&mut self, cache: &mut NameMap<String>, outcome: Result<LabelInfo, String>)
        ensures
            ({
                let before = text_pairs(old(cache).pairs());
                let after = text_pairs(final(cache).pairs());
                match outcome {
                    Ok(label) => final(self)@ == after_label(old(self)@, label.id@) && after
                        == cache_with_label(old(self)@, before, label.id@),
                    Err(_) => final(self)@ == after_drop(old(self)@) && after == before,
                }
            }),
    {
        if self.next >= self.tags.len() {
            return ;
        }
        assert(self@.tags[self.next as int] == self.tags@[self.next as int]@);
        match outcome {
            Ok(label) => {
                let key = to_lowercase(self.tags[self.next].as_str());
                let ghost before = self@;
                proof {
                    lemma_upsert_text(cache.pairs(), key@, label.id);
                }
                self.label_ids.push(label.id.clone());
                cache.insert(key, label.id);
                self.next = self.next + 1;
                assert(self@.label_ids =~= before.label_ids.push(label.id@));
            },
            Err(_) => {
                self.next = self.next + 1;
            },
        }
    }

    /// The ids of the labels that were found, in the order of their tags.
    pub fn finish(self) -> (label_ids: Vec<String>)
        ensures
            views(label_ids@) == self@.label_ids,
    {
        self.label_ids
    }
}

} // verus!
