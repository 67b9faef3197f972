//! The result store: one slot per kind of fetched data, and one shared slot
//! for the message of the last failure.
//!
//! A slot holds a collection together with the state of the session that
//! fills it. Every operation replaces the slot's content in a single step, so
//! a reader sees the collection as it was before a change or as it is after
//! it, and the length and the items it reads belong to one and the same
//! collection.

use crate::text::{copy_window, views, window};
use vstd::prelude::*;

verus! {

/// Where the session that fills a slot stands.
#[derive(Clone, Copy, Debug, PartialEq, Eq, Structural)]
pub enum SessionState {
    /// No session has been started since the slot was made or last reset.
    Idle,
    /// A worker is out fetching; nothing has been published yet.
    Running,
    /// The worker published a value.
    CompletedOk,
    /// The worker reported a failure.
    CompletedErr,
}

impl SessionState {
    /// The completion flag: the session has ended, well or badly.
    pub open spec fn complete(self) -> bool {
        self is CompletedOk || self is CompletedErr
    }

    /// Reads the completion flag.
    pub fn is_complete(&self) -> (done: bool)
        ensures
            done == self.complete(),
    {
        match self {
            SessionState::CompletedOk => true,
            SessionState::CompletedErr => true,
            _ => false,
        }
    }
}

/// Why a read of the store was refused.
#[derive(Clone, Copy, Debug, PartialEq, Eq, Structural)]
pub enum StoreError {
    /// The index is not below the number of stored items.
    OutOfRange,
}

/// What a slot holds, as a mathematical value.
pub struct SlotView<T> {
    pub items: Seq<T>,
    pub state: SessionState,
}

impl<T> SlotView<T> {
    /// The slot as it is made: empty and idle.
    pub open spec fn fresh() -> Self {
        SlotView { items: Seq::empty(), state: SessionState::Idle }
    }

    /// Clears the collection and the completion flag.
    pub open spec fn reset(self) -> Self {
        SlotView { items: Seq::empty(), state: SessionState::Idle }
    }

    /// A session starts: the collection is cleared, and the session runs.
    pub open spec fn start(self) -> Self {
        SlotView { items: Seq::empty(), state: SessionState::Running }
    }

    /// Replaces the collection and sets the completion flag.
    pub open spec fn publish(self, items: Seq<T>) -> Self {
        SlotView { items, state: SessionState::CompletedOk }
    }

    /// Sets the completion flag for a failed session; the collection stays.
    pub open spec fn fail(self) -> Self {
        SlotView { items: self.items, state: SessionState::CompletedErr }
    }

    /// The completion flag.
    pub open spec fn complete(self) -> bool {
        self.state.complete()
    }

    /// Nothing is stored for a session that has not ended: what a reader
    /// finds was published by a worker whose session is complete.
    pub open spec fn settled(self) -> bool {
        !self.complete() ==> self.items.len() == 0
    }

    /// The number of stored items.
    pub open spec fn read_count(self) -> nat {
        self.items.len()
    }

    /// The item at `index`, or the refusal for an index past the end.
    pub open spec fn read_item(self, index: int) -> Result<T, StoreError> {
        if 0 <= index < self.items.len() {
            Ok(self.items[index])
        } else {
            Err(StoreError::OutOfRange)
        }
    }
}

/// One category of fetched data: the latest collection and the state of the
/// session that fills it.
#[derive(Debug)]
pub struct FetchSlot<T> {
    items: Vec<T>,
    state: SessionState,
}

impl<T> View for FetchSlot<T> {
    type V = SlotView<T>;

    closed spec fn view(&self) -> SlotView<T> {
        SlotView { items: self.items@, state: self.state }
    }
}

impl<T> FetchSlot<T> {
    #[verifier::type_invariant]
    spec fn well_formed(self) -> bool {
        self@.settled()
    }

    /// An empty, idle slot.
    pub fn new() -> (slot: Self)
        ensures
            slot@ == SlotView::<T>::fresh(),
    {
        FetchSlot { items: Vec::new(), state: SessionState::Idle }
    }

    /// Clears the stored collection and the completion flag.
    pub fn reset(&mut self)
        ensures
            final(self)@ == old(self)@.reset(),
    {
        self.items = Vec::new();
        self.state = SessionState::Idle;
    }

    /// Starts a session: the stored collection is cleared, and the session
    /// runs.
    pub fn start(&mut self)
        ensures
            final(self)@ == old(self)@.start(),
    {
        self.items = Vec::new();
        self.state = SessionState::Running;
    }

    /// Replaces the stored collection by `items` and sets the completion
    /// flag, in one step.
    pub fn publish(&mut self, items: Vec<T>)
        ensures
            final(self)@ == old(self)@.publish(items@),
    {
        self.state = SessionState::CompletedOk;
        self.items = items;
    }

    /// Ends the session as failed: the completion flag is set and the
    /// collection is left as it was.
    pub fn fail(&mut self)
        ensures
            final(self)@ == old(self)@.fail(),
    {
        self.state = SessionState::CompletedErr;
    }

    /// The state of the session.
    pub fn state(&self) -> (state: SessionState)
        ensures
            state == self@.state,
    {
        self.state
    }

    /// Reads the completion flag. As long as it is not set, the slot is
    /// empty.
    pub fn is_complete(&self) -> (done: bool)
        ensures
            done == self@.complete(),
            self@.settled(),
    {
        proof {
            use_type_invariant(self);
        }
        self.state.is_complete()
    }

    /// The number of stored items.
    pub fn read_count(&self) -> (count: usize)
        ensures
            count == self@.read_count(),
    {
        self.items.len()
    }

    /// The item at `index`; an index past the end is refused.
    pub fn read_item(&self, index: usize) -> (found: Result<&T, StoreError>)
        ensures
            match found {
                Ok(item) => self@.read_item(index as int) == Ok::<T, StoreError>(*item),
                Err(e) => self@.read_item(index as int) == Err::<T, StoreError>(e),
            },
    {
        if index < self.items.len() {
            Ok(&self.items[index])
        } else {
            Err(StoreError::OutOfRange)
        }
    }

    /// The whole collection, borrowed.
    pub fn items(&self) -> (items: &Vec<T>)
        ensures
            items@ == self@.items,
    {
        &self.items
    }
}

impl FetchSlot<String> {
    /// Copies out the lines from `offset` on, at most `limit` of them. An
    /// `offset` past the end gives no lines.
    pub fn read_lines(&self, offset: usize, limit: usize) -> (lines: Vec<String>)
        ensures
            lines@ == window(self@.items, offset as nat, limit as nat),
            lines.deep_view() == window(views(self@.items), offset as nat, limit as nat),
    {
        copy_window(&self.items, offset, limit)
    }
}

/// The message of the last failure, shared by all kinds of session.
#[derive(Debug)]
pub struct ErrorSlot {
    message: Option<String>,
}

impl View for ErrorSlot {
    type V = Option<Seq<char>>;

    closed spec fn view(&self) -> Option<Seq<char>> {
        match self.message {
            Some(text) => Some(text@),
            None => None,
        }
    }
}

/// The text a reader of the error slot gets: the message, or nothing.
pub open spec fn error_text(slot: Option<Seq<char>>) -> Seq<char> {
    match slot {
        Some(text) => text,
        None => Seq::empty(),
    }
}

impl ErrorSlot {
    /// A slot without a message.
    pub fn new() -> (slot: Self)
        ensures
            slot@ is None,
    {
        ErrorSlot { message: None }
    }

    /// Removes the message.
    pub fn clear(&mut self)
        ensures
            final(self)@ is None,
    {
        self.message = None;
    }

    /// Makes `message` the one visible failure.
    pub fn set(&mut self, message: String)
        ensures
            final(self)@ == Some(message@),
    {
        self.message = Some(message);
    }

    /// Whether a failure is visible.
    pub fn is_set(&self) -> (set: bool)
        ensures
            set == self@ is Some,
    {
        self.message.is_some()
    }

    /// The visible message, or the empty text where there is none.
    pub fn text(&self) -> (text: String)
        ensures
            text@ == error_text(self@),
    {
        match &self.message {
            Some(text) => text.clone(),
            None => String::new(),
        }
    }
}

/// Resetting twice leaves a slot as resetting once does: empty, and not
/// complete.
pub proof fn lemma_reset_idempotent<T>(slot: SlotView<T>)
    ensures
        slot.reset().reset() == slot.reset(),
        slot.reset().items == Seq::<T>::empty(),
        !slot.reset().complete(),
        slot.start().start() == slot.start(),
        slot.start().items == Seq::<T>::empty(),
        !slot.start().complete(),
{
}

/// A reader that runs beside a publish sees the slot as it was before or as
/// it is after, and both the count and the item it reads come from that one
/// collection: never an item of one and the length of the other.
pub proof fn lemma_read_sees_one_collection<T>(
    before: SlotView<T>,
    value: Seq<T>,
    seen: SlotView<T>,
    index: int,
)
    requires
        seen == before || seen == before.publish(value),
    ensures
        (seen.read_count() == before.read_count() && seen.read_item(index) == before.read_item(
            index,
        )) || (seen.read_count() == value.len() && seen.read_item(index) == before.publish(
            value,
        ).read_item(index)),
        seen.read_item(index) is Ok <==> 0 <= index < seen.read_count(),
        seen.read_item(index) matches Ok(item) ==> item == seen.items[index],
{
}

/// Once a session is seen complete after a publish, the slot already holds
/// the published value: the flag and the value change together.
pub proof fn lemma_complete_shows_published<T>(before: SlotView<T>, value: Seq<T>)
    ensures
        before.publish(value).complete(),
        before.publish(value).items == value,
        before.publish(value).read_count() == value.len(),
        forall|i: int|
            0 <= i < value.len() ==> #[trigger] before.publish(value).read_item(i) == Ok::<
                T,
                StoreError,
            >(value[i]),
        !before.start().complete(),
{
}

/// Every step keeps a slot settled: as long as its session is not seen
/// complete, it is seen empty.
pub proof fn lemma_steps_keep_settled<T>(slot: SlotView<T>, value: Seq<T>)
    requires
        slot.settled(),
    ensures
        SlotView::<T>::fresh().settled(),
        slot.reset().settled(),
        slot.start().settled(),
        slot.publish(value).settled(),
        slot.fail().settled(),
{
}

} // verus!
