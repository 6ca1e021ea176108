use vstd::prelude::*;

use crate::daemon::{chosen_sink, SinkKind};
use crate::event::RawKeyEvent;
use crate::normalize::yields_message;
use crate::wire::event_output;

verus! {

/// Everything written for a sequence of raw events, in order.
pub open spec fn stream_output(evs: Seq<RawKeyEvent>) -> Seq<char>
    decreases evs.len(),
{
    if evs.len() == 0 {
        Seq::empty()
    } else {
        stream_output(evs.drop_last()) + event_output(evs.last())
    }
}

/// The records a transport with sink `sink` delivers for a sequence of raw
/// events, each with the sink it goes to.
pub open spec fn deliveries(sink: SinkKind, evs: Seq<RawKeyEvent>) -> Seq<(SinkKind, Seq<char>)>
    decreases evs.len(),
{
    if evs.len() == 0 {
        Seq::empty()
    } else if yields_message(evs.last()) {
        deliveries(sink, evs.drop_last()).push((sink, event_output(evs.last())))
    } else {
        deliveries(sink, evs.drop_last())
    }
}

/// Synthesised input never yields a message, so nothing is written for it.
pub proof fn injected_event_yields_nothing(ev: RawKeyEvent)
    requires
        ev.injected,
    ensures
        !yields_message(ev),
        event_output(ev) == Seq::<char>::empty(),
{
}

/// Dropping is stateless: an event that is dropped once is dropped again
/// when it comes a second time, whatever came before.
pub proof fn dropped_event_dropped_again(before: Seq<RawKeyEvent>, ev: RawKeyEvent)
    requires
        !yields_message(ev),
    ensures
        stream_output(before.push(ev).push(ev)) == stream_output(before),
{
    assert(before.push(ev).push(ev).drop_last() =~= before.push(ev));
    assert(before.push(ev).drop_last() =~= before);
    assert(stream_output(before.push(ev)) =~= stream_output(before));
    assert(stream_output(before.push(ev).push(ev)) =~= stream_output(before.push(ev)));
}

/// A stream of synthesised events writes no byte to any sink.
pub proof fn injected_stream_writes_nothing(sink: SinkKind, evs: Seq<RawKeyEvent>)
    requires
        forall|i: int| 0 <= i < evs.len() ==> #[trigger] evs[i].injected,
    ensures
        stream_output(evs) == Seq::<char>::empty(),
        deliveries(sink, evs) == Seq::<(SinkKind, Seq<char>)>::empty(),
    decreases evs.len(),
{
    if evs.len() > 0 {
        let init = evs.drop_last();
        assert(evs.last().injected);
        assert forall|i: int| 0 <= i < init.len() implies #[trigger] init[i].injected by {
            assert(init[i] == evs[i]);
        }
        injected_stream_writes_nothing(sink, init);
        assert(stream_output(evs) =~= stream_output(init));
    }
}

/// When connecting to the named channel fails, every later record goes to
/// standard output, and the records are the same, byte for byte, as those
/// the named channel would have received.
pub proof fn fallback_sink_same_records(evs: Seq<RawKeyEvent>)
    ensures
        deliveries(chosen_sink(false), evs).len() == deliveries(SinkKind::NamedChannel, evs).len(),
        forall|i: int|
            0 <= i < deliveries(chosen_sink(false), evs).len() ==> {
                &&& (#[trigger] deliveries(chosen_sink(false), evs)[i]).0 == SinkKind::Stdout
                &&& deliveries(chosen_sink(false), evs)[i].1 == deliveries(
                    SinkKind::NamedChannel,
                    evs,
                )[i].1
            },
    decreases evs.len(),
{
    if evs.len() > 0 {
        fallback_sink_same_records(evs.drop_last());
    }
}

} // verus!
