//! Gathering the batches of one query stream, in the order they arrive.
use vstd::prelude::*;
use crate::repl::Error;

verus! {

/// One pull from a query stream: a batch, the end of the stream (`Ok(None)`),
/// or the error that the remote side reported.
pub type StreamItem<B> = Result<Option<B>, String>;

/// Where the gathering of a stream stands.
#[derive(Debug, PartialEq, Eq)]
pub enum CollectState {
    /// More items are wanted.
    Open,
    /// The stream ended; the gathered batches are the result.
    Ended,
    /// The stream failed with this message; the gathered batches are gone.
    Failed(String),
}

/// The effect of one item on the gathered batches and the state.
pub open spec fn collect_step<B>(s: (Seq<B>, CollectState), item: StreamItem<B>) -> (Seq<B>, CollectState) {
    match s.1 {
        CollectState::Open => match item {
            Ok(Some(b)) => (s.0.push(b), CollectState::Open),
            Ok(None) => (s.0, CollectState::Ended),
            Err(m) => (Seq::empty(), CollectState::Failed(m)),
        },
        _ => s,
    }
}

/// The batches and state after the items of `items` were handed over in turn.
pub open spec fn collect_all<B>(items: Seq<StreamItem<B>>) -> (Seq<B>, CollectState)
    decreases items.len(),
{
    if items.len() == 0 {
        (Seq::empty(), CollectState::Open)
    } else {
        collect_step(collect_all(items.drop_last()), items.last())
    }
}

/// The stream that delivers `bs` in order and then ends.
pub open spec fn delivered<B>(bs: Seq<B>) -> Seq<StreamItem<B>> {
    bs.map_values(|b: B| Ok(Some(b))).push(Ok(None))
}

/// The batches of a query stream, gathered until it ends or fails.
pub struct BatchCollector<B> {
    batches: Vec<B>,
    state: CollectState,
}

impl<B> View for BatchCollector<B> {
    type V = (Seq<B>, CollectState);

    closed spec fn view(&self) -> (Seq<B>, CollectState) {
        (self.batches@, self.state)
    }
}

impl<B> BatchCollector<B> {
    /// A collector that has seen nothing yet.
    pub fn new() -> (r: Self)
        ensures
            r@ == collect_all(Seq::<StreamItem<B>>::empty()),
    {
        BatchCollector { batches: Vec::new(), state: CollectState::Open }
    }

    /// Whether more items are wanted.
    pub fn is_open(&self) -> (r: bool)
        ensures
            r == (self@.1 == CollectState::Open),
    {
        match self.state {
            CollectState::Open => true,
            _ => false,
        }
    }

    /// Hands over the next item of the stream; returns whether more are wanted.
    /// Once the stream has ended or failed, further items change nothing.
    pub fn accept(&mut self, item: StreamItem<B>) -> (more: bool)
        ensures
            final(self)@ == collect_step(old(self)@, item),
            more == (final(self)@.1 == CollectState::Open),
    {
        if !self.is_open() {
            return false;
        }
        match item {
            Ok(Some(b)) => {
                self.batches.push(b);
                true
            },
            Ok(None) => {
                self.state = CollectState::Ended;
                false
            },
            Err(m) => {
                self.batches = Vec::new();
                self.state = CollectState::Failed(m);
                false
            },
        }
    }

    /// The result of a finished stream: all batches in arrival order, or the
    /// remote failure.
    pub fn into_result(self) -> (r: Result<Vec<B>, Error>)
        requires
            self@.1 != CollectState::Open,
        ensures
            match self@.1 {
                CollectState::Ended => r matches Ok(bs) && bs@ == self@.0,
                CollectState::Failed(m) => r == Err::<Vec<B>, Error>(Error::RunningRemoteQuery { message: m }),
                CollectState::Open => false,
            },
    {
        match self.state {
            CollectState::Ended => Ok(self.batches),
            CollectState::Failed(m) => Err(Error::RunningRemoteQuery { message: m }),
            CollectState::Open => Err(Error::RunningRemoteQuery { message: String::new() }),
        }
    }
}

proof fn lemma_collect_batches_only<B>(bs: Seq<B>)
    ensures
        collect_all(bs.map_values(|b: B| Ok::<Option<B>, String>(Some(b)))) == (bs, CollectState::Open),
    decreases bs.len(),
{
    let items = bs.map_values(|b: B| Ok::<Option<B>, String>(Some(b)));
    if bs.len() > 0 {
        lemma_collect_batches_only(bs.drop_last());
        assert(items.drop_last() =~= bs.drop_last().map_values(|b: B| Ok::<Option<B>, String>(Some(b))));
        assert(bs.drop_last().push(bs.last()) =~= bs);
    } else {
        assert(items.len() == 0);
    }
}

/// A stream that delivers batches and then ends yields exactly those batches,
/// in the order they were delivered.
pub proof fn lemma_order_kept<B>(bs: Seq<B>)
    ensures
        collect_all(delivered(bs)) == (bs, CollectState::Ended),
{
    lemma_collect_batches_only(bs);
    assert(delivered(bs).drop_last() =~= bs.map_values(|b: B| Ok::<Option<B>, String>(Some(b))));
}

/// Once a stream has failed, nothing gathered before survives and later items
/// change nothing.
pub proof fn lemma_failure_final<B>(items: Seq<StreamItem<B>>, more: Seq<StreamItem<B>>)
    requires
        collect_all(items).1 is Failed,
    ensures
        collect_all(items + more) == collect_all(items),
        collect_all(items).0.len() == 0,
    decreases more.len(),
{
    if more.len() == 0 {
        assert(items + more =~= items);
    } else {
        lemma_failure_final(items, more.drop_last());
        assert((items + more).drop_last() =~= items + more.drop_last());
    }
    lemma_failed_is_empty(items);
}

proof fn lemma_failed_is_empty<B>(items: Seq<StreamItem<B>>)
    requires
        collect_all(items).1 is Failed,
    ensures
        collect_all(items).0.len() == 0,
    decreases items.len(),
{
    if items.len() > 0 {
        if collect_all(items.drop_last()).1 is Failed {
            lemma_failed_is_empty(items.drop_last());
        }
    }
}

} // verus!
