//! The device session: one connection's state, diffing and recovery.
//!
//! The session couples the device aggregate with the diffing engine and
//! decides, for every link-level happening, which events to put on the event
//! channel. The surrounding task performs the I/O and hands the session plain
//! values:
//!
//! - a parsed message arrives: [`DeviceSession::on_message`] applies it to
//!   the aggregate and returns the novel facts as events, in the order the
//!   message listed them;
//! - the stream ends: [`DeviceSession::on_stream_closed`] marks the link
//!   down and returns the disconnection event carrying the last-known
//!   identity; the task waits [`DEVICE_RECONNECT_DELAY_SECS`] and retries;
//! - a receive fails without ending the stream: the task waits
//!   [`RECEIVE_RETRY_DELAY_SECS`] and retries, touching no state;
//! - a connection attempt succeeds: [`DeviceSession::on_connected`] marks the
//!   link up and sets the reconnect flag, so the whole initial state dump is
//!   re-announced; the device's end-of-dump marker clears the flag;
//! - the backend link recovers: [`DeviceSession::on_backend_restored`] sets
//!   the reconnect flag without touching the device link.

use vstd::prelude::*;

use crate::device::{Label, Lock, Message, NetworkInterface, Route, opt_string_copy, opt_u32_copy};
use crate::events::{EventView, PortType, VideohubEvent, events_view};
use crate::state::{StateModel, TakeModeEntry, VideohubState, state_after};
use crate::tracker::{StateTracker, TrackerModel};

verus! {

/// Seconds to wait after the device stream ends before reconnecting.
pub const DEVICE_RECONNECT_DELAY_SECS: u64 = 5;

/// Seconds to wait after a failed receive before retrying.
pub const RECEIVE_RETRY_DELAY_SECS: u64 = 1;

/// The tracker after noting a batch of routing pairs, in order.
pub open spec fn tracker_after_routes(t: TrackerModel, items: Seq<Route>) -> TrackerModel
    decreases items.len(),
{
    if items.len() == 0 {
        t
    } else {
        tracker_after_routes(t, items.drop_last()).with_route(
            items.last().to_output,
            items.last().from_input,
        )
    }
}

/// The events a batch of routing pairs yields: one per novel pair, in batch
/// order, each carrying the input's last-known label.
pub open spec fn route_events(t: TrackerModel, items: Seq<Route>) -> Seq<EventView>
    decreases items.len(),
{
    if items.len() == 0 {
        Seq::empty()
    } else {
        let prefix = route_events(t, items.drop_last());
        let t1 = tracker_after_routes(t, items.drop_last());
        let r = items.last();
        if t1.route_novel(r.to_output, r.from_input) {
            prefix.push(
                EventView::Route {
                    output: r.to_output,
                    input: r.from_input,
                    input_label: t1.label_lookup(r.from_input),
                },
            )
        } else {
            prefix
        }
    }
}

/// Whether a label of the given kind is novel.
pub open spec fn label_novel_at(t: TrackerModel, pt: PortType, id: u32, name: Seq<char>) -> bool {
    match pt {
        PortType::Input => t.input_label_novel(id, name),
        PortType::Output => t.output_label_novel(id, name),
    }
}

/// The tracker after recording a label of the given kind.
pub open spec fn with_label_at(
    t: TrackerModel,
    pt: PortType,
    id: u32,
    name: Seq<char>,
) -> TrackerModel {
    match pt {
        PortType::Input => t.with_input_label(id, name),
        PortType::Output => t.with_output_label(id, name),
    }
}

/// The tracker after noting a batch of labels of one kind, in order.
pub open spec fn tracker_after_labels(
    t: TrackerModel,
    pt: PortType,
    items: Seq<Label>,
) -> TrackerModel
    decreases items.len(),
{
    if items.len() == 0 {
        t
    } else {
        with_label_at(
            tracker_after_labels(t, pt, items.drop_last()),
            pt,
            items.last().id,
            items.last().name@,
        )
    }
}

/// The events a batch of labels yields: one per novel label, in batch order.
pub open spec fn label_events(t: TrackerModel, pt: PortType, items: Seq<Label>) -> Seq<EventView>
    decreases items.len(),
{
    if items.len() == 0 {
        Seq::empty()
    } else {
        let prefix = label_events(t, pt, items.drop_last());
        let t1 = tracker_after_labels(t, pt, items.drop_last());
        let l = items.last();
        if label_novel_at(t1, pt, l.id, l.name@) {
            prefix.push(EventView::Label { port_type: pt, port: l.id, label: l.name@ })
        } else {
            prefix
        }
    }
}

/// The tracker after noting a batch of lock entries, in order.
pub open spec fn tracker_after_locks(t: TrackerModel, items: Seq<Lock>) -> TrackerModel
    decreases items.len(),
{
    if items.len() == 0 {
        t
    } else {
        tracker_after_locks(t, items.drop_last()).with_lock(
            items.last().id,
            items.last().spec_is_locked(),
        )
    }
}

/// The events a batch of lock entries yields: one per novel lock state, in
/// batch order.
pub open spec fn lock_events(t: TrackerModel, items: Seq<Lock>) -> Seq<EventView>
    decreases items.len(),
{
    if items.len() == 0 {
        Seq::empty()
    } else {
        let prefix = lock_events(t, items.drop_last());
        let t1 = tracker_after_locks(t, items.drop_last());
        let l = items.last();
        if t1.lock_novel(l.id, l.spec_is_locked()) {
            prefix.push(EventView::OutputLock { output: l.id, locked: l.spec_is_locked() })
        } else {
            prefix
        }
    }
}

/// The tracker after scanning the aggregate's take-mode entries, in order.
pub open spec fn tracker_after_take_modes(
    t: TrackerModel,
    entries: Seq<TakeModeEntry>,
) -> TrackerModel
    decreases entries.len(),
{
    if entries.len() == 0 {
        t
    } else {
        tracker_after_take_modes(t, entries.drop_last()).with_take_mode(
            entries.last().output,
            entries.last().enabled,
        )
    }
}

/// The events the take-mode scan yields: one per novel entry, in entry
/// order.
pub open spec fn take_mode_events(t: TrackerModel, entries: Seq<TakeModeEntry>) -> Seq<EventView>
    decreases entries.len(),
{
    if entries.len() == 0 {
        Seq::empty()
    } else {
        let prefix = take_mode_events(t, entries.drop_last());
        let t1 = tracker_after_take_modes(t, entries.drop_last());
        let e = entries.last();
        if t1.take_mode_novel(e.output, e.enabled) {
            prefix.push(EventView::TakeMode { output: e.output, enabled: e.enabled })
        } else {
            prefix
        }
    }
}

/// The tracker after scanning the aggregate's network interfaces, in order.
pub open spec fn tracker_after_interfaces(
    t: TrackerModel,
    ifaces: Seq<crate::device::NetworkInterfaceView>,
) -> TrackerModel
    decreases ifaces.len(),
{
    if ifaces.len() == 0 {
        t
    } else {
        tracker_after_interfaces(t, ifaces.drop_last()).with_interface(ifaces.last())
    }
}

/// The events the network-interface scan yields: one per novel interface, in
/// entry order.
pub open spec fn interface_events(
    t: TrackerModel,
    ifaces: Seq<crate::device::NetworkInterfaceView>,
) -> Seq<EventView>
    decreases ifaces.len(),
{
    if ifaces.len() == 0 {
        Seq::empty()
    } else {
        let prefix = interface_events(t, ifaces.drop_last());
        let t1 = tracker_after_interfaces(t, ifaces.drop_last());
        if t1.interface_novel(ifaces.last()) {
            prefix.push(EventView::NetworkInterface { interface: ifaces.last() })
        } else {
            prefix
        }
    }
}

/// After a batch whose outputs are pairwise distinct, every pair of the
/// batch is cached, and the reconnect flag is untouched.
proof fn lemma_routes_all_cached(t: TrackerModel, items: Seq<Route>)
    requires
        forall|i: int, j: int|
            0 <= i < j < items.len() ==> (#[trigger] items[i]).to_output != (
            #[trigger] items[j]).to_output,
    ensures
        tracker_after_routes(t, items).reconnect == t.reconnect,
        forall|k: int|
            0 <= k < items.len() ==> tracker_after_routes(t, items).routes.contains_key(
                (#[trigger] items[k]).to_output) && tracker_after_routes(t, items).routes[
                items[k].to_output] == items[k].from_input,
    decreases items.len(),
{
    if items.len() > 0 {
        let pre = items.drop_last();
        assert(forall|i: int, j: int|
            0 <= i < j < pre.len() ==> (#[trigger] pre[i]).to_output != (
            #[trigger] pre[j]).to_output);
        lemma_routes_all_cached(t, pre);
        let t1 = tracker_after_routes(t, items);
        let r = items.last();
        assert forall|k: int| 0 <= k < items.len() implies t1.routes.contains_key(
            (#[trigger] items[k]).to_output) && t1.routes[items[k].to_output]
            == items[k].from_input by {
            if k < items.len() - 1 {
                assert(pre[k] == items[k]);
                assert(items[k].to_output != r.to_output);
            }
        }
    }
}

/// A batch whose every pair is already cached replays silently and leaves
/// the tracker as it was.
proof fn lemma_cached_batch_is_silent(t: TrackerModel, items: Seq<Route>)
    requires
        !t.reconnect,
        forall|k: int|
            0 <= k < items.len() ==> t.routes.contains_key((#[trigger] items[k]).to_output)
                && t.routes[items[k].to_output] == items[k].from_input,
    ensures
        route_events(t, items) == Seq::<EventView>::empty(),
        tracker_after_routes(t, items) == t,
    decreases items.len(),
{
    if items.len() > 0 {
        let pre = items.drop_last();
        assert(forall|k: int| 0 <= k < pre.len() ==> pre[k] == items[k]);
        lemma_cached_batch_is_silent(t, pre);
        let r = items.last();
        assert(!t.route_novel(r.to_output, r.from_input));
        assert(t.routes.insert(r.to_output, r.from_input) =~= t.routes);
        assert(t.with_route(r.to_output, r.from_input) =~= t);
    }
}

/// Diff suppression at the message level: a routing table that names each
/// output at most once, re-announced unchanged with the reconnect flag
/// clear, yields no events the second time and leaves the tracker unchanged.
pub proof fn lemma_routing_table_replay_silent(t: TrackerModel, items: Seq<Route>)
    requires
        !t.reconnect,
        forall|i: int, j: int|
            0 <= i < j < items.len() ==> (#[trigger] items[i]).to_output != (
            #[trigger] items[j]).to_output,
    ensures
        route_events(tracker_after_routes(t, items), items) == Seq::<EventView>::empty(),
        tracker_after_routes(tracker_after_routes(t, items), items) == tracker_after_routes(
            t, items),
{
    lemma_routes_all_cached(t, items);
    lemma_cached_batch_is_silent(tracker_after_routes(t, items), items);
}

/// The fallback scan over a message that updated nothing structurally:
/// take-mode entries first, then network interfaces.
pub open spec fn scan_events(t: TrackerModel, s: StateModel) -> Seq<EventView> {
    take_mode_events(t, s.take_mode) + interface_events(
        tracker_after_take_modes(t, s.take_mode),
        s.network_interfaces,
    )
}

/// The tracker after the fallback scan.
pub open spec fn tracker_after_scan(t: TrackerModel, s: StateModel) -> TrackerModel {
    tracker_after_interfaces(tracker_after_take_modes(t, s.take_mode), s.network_interfaces)
}

/// The events one parsed message yields, where `s` is the aggregate state
/// after the message was applied.
pub open spec fn message_events(t: TrackerModel, s: StateModel, msg: Message) -> Seq<EventView> {
    match msg {
        Message::DeviceInfo(info) => if t.info_novel(info@) {
            seq![
                (EventView::DeviceStatus {
                    connected: true,
                    model_name: info@.model_name,
                    video_inputs: info@.video_inputs,
                    video_outputs: info@.video_outputs,
                }),
            ]
        } else {
            Seq::empty()
        },
        Message::VideoOutputRouting(items) => route_events(t, items@),
        Message::InputLabels(items) => label_events(t, PortType::Input, items@),
        Message::OutputLabels(items) => label_events(t, PortType::Output, items@),
        Message::VideoOutputLocks(items) => lock_events(t, items@),
        Message::EndPrelude => Seq::empty(),
        _ => scan_events(t, s),
    }
}

/// The tracker after one parsed message.
pub open spec fn tracker_after_message(t: TrackerModel, s: StateModel, msg: Message) -> TrackerModel {
    match msg {
        Message::DeviceInfo(info) => t.with_info(info@),
        Message::VideoOutputRouting(items) => tracker_after_routes(t, items@),
        Message::InputLabels(items) => tracker_after_labels(t, PortType::Input, items@),
        Message::OutputLabels(items) => tracker_after_labels(t, PortType::Output, items@),
        Message::VideoOutputLocks(items) => tracker_after_locks(t, items@),
        Message::EndPrelude => t.with_reconnect(false),
        _ => tracker_after_scan(t, s),
    }
}

/// The disconnection event: link down, last-known identity attached.
pub open spec fn disconnect_event(t: TrackerModel) -> EventView {
    EventView::DeviceStatus {
        connected: false,
        model_name: match t.device_info {
            Option::Some(i) => i.model_name,
            Option::None => Option::None,
        },
        video_inputs: match t.device_info {
            Option::Some(i) => i.video_inputs,
            Option::None => Option::None,
        },
        video_outputs: match t.device_info {
            Option::Some(i) => i.video_outputs,
            Option::None => Option::None,
        },
    }
}

/// One device connection's state: the aggregate and the diffing engine,
/// both owned by the single device I/O task.
pub struct DeviceSession {
    pub state: VideohubState,
    pub tracker: StateTracker,
}

impl DeviceSession {
    /// Well-formedness of the session: the aggregate's keyed tables are
    /// keyed uniquely.
    pub open spec fn wf(self) -> bool {
        self.state@.wf()
    }

    /// A fresh session: empty aggregate, empty tracker, link down.
    pub fn new() -> (s: DeviceSession)
        ensures
            s.state@ == StateModel::initial(),
            s.tracker@ == TrackerModel::initial(),
            s.wf(),
    {
        DeviceSession { state: VideohubState::new(), tracker: StateTracker::new() }
    }

    /// Marks a successful (re)connection: the link is up and the reconnect
    /// flag is set, so the coming initial state dump is announced in full
    /// even where values did not change.
    pub fn on_connected(&mut self)
        ensures
            final(self).state@ == (StateModel { connected: true, ..old(self).state@ }),
            final(self).tracker@ == old(self).tracker@.with_reconnect(true),
            old(self).wf() ==> final(self).wf(),
    {
        self.state.set_connected(true);
        self.tracker.set_reconnect_flag();
    }

    /// Marks the backend link as recovered: forces a full re-announcement by
    /// setting the reconnect flag, and touches nothing else — in particular
    /// it neither tears down nor reconnects the device link.
    pub fn on_backend_restored(&mut self)
        ensures
            final(self).state == old(self).state,
            final(self).tracker@ == old(self).tracker@.with_reconnect(true),
            old(self).wf() ==> final(self).wf(),
    {
        self.tracker.set_reconnect_flag();
    }

    /// Marks the stream as ended: the link is down, and the returned event
    /// reports the disconnection with the last-known identity, stale but
    /// labelled as such. The caller waits [`DEVICE_RECONNECT_DELAY_SECS`]
    /// and then retries connecting.
    pub fn on_stream_closed(&mut self) -> (ev: VideohubEvent)
        ensures
            final(self).state@ == (StateModel { connected: false, ..old(self).state@ }),
            final(self).tracker@ == old(self).tracker@,
            old(self).wf() ==> final(self).wf(),
            ev@ == disconnect_event(old(self).tracker@),
    {
        self.state.set_connected(false);
        let info = self.tracker.device_info_snapshot();
        match info {
            Option::Some(i) => VideohubEvent::DeviceStatus {
                connected: false,
                model_name: opt_string_copy(&i.model_name),
                video_inputs: opt_u32_copy(&i.video_inputs),
                video_outputs: opt_u32_copy(&i.video_outputs),
            },
            Option::None => VideohubEvent::DeviceStatus {
                connected: false,
                model_name: Option::None,
                video_inputs: Option::None,
                video_outputs: Option::None,
            },
        }
    }

    /// Records one output's take mode in the aggregate, for messages whose
    /// take-mode content the surrounding task parses itself. The diffing
    /// happens later, in the fallback scan.
    pub fn record_take_mode(&mut self, output: u32, enabled: bool)
        requires
            old(self).wf(),
        ensures
            final(self).wf(),
            final(self).tracker == old(self).tracker,
            ({
                let s0 = old(self).state@.take_mode;
                let e = TakeModeEntry { output, enabled };
                if exists|i: int| 0 <= i < s0.len() && (#[trigger] s0[i]).output == output {
                    exists|i: int|
                        0 <= i < s0.len() && (#[trigger] s0[i]).output == output
                            && final(self).state@.take_mode == s0.update(i, e)
                } else {
                    final(self).state@.take_mode == s0.push(e)
                }
            }),
            final(self).state@ == (StateModel {
                take_mode: final(self).state@.take_mode,
                ..old(self).state@
            }),
    {
        self.state.upsert_take_mode(output, enabled);
    }

    /// Records one network interface in the aggregate; diffing happens in
    /// the fallback scan.
    pub fn record_network_interface(&mut self, iface: &NetworkInterface)
        requires
            old(self).wf(),
        ensures
            final(self).wf(),
            final(self).tracker == old(self).tracker,
            ({
                let s0 = old(self).state@.network_interfaces;
                if exists|i: int| 0 <= i < s0.len() && (#[trigger] s0[i]).id == iface@.id {
                    exists|i: int|
                        0 <= i < s0.len() && (#[trigger] s0[i]).id == iface@.id
                            && final(self).state@.network_interfaces == s0.update(i, iface@)
                } else {
                    final(self).state@.network_interfaces == s0.push(iface@)
                }
            }),
            final(self).state@ == (StateModel {
                network_interfaces: final(self).state@.network_interfaces,
                ..old(self).state@
            }),
    {
        self.state.upsert_network_interface(iface);
    }

    /// Applies one parsed message and returns the novel facts as events, in
    /// the order the message listed them. Each fact of a batch is diffed
    /// independently; the end-of-dump marker clears the reconnect flag; a
    /// message without structural content triggers the fallback scan.
    pub fn on_message(&mut self, msg: &Message) -> (events: Vec<VideohubEvent>)
        requires
            old(self).wf(),
        ensures
            final(self).wf(),
            final(self).state@ == state_after(old(self).state@, *msg),
            final(self).tracker@ == tracker_after_message(
                old(self).tracker@,
                state_after(old(self).state@, *msg),
                *msg,
            ),
            events_view(events@) == message_events(
                old(self).tracker@,
                state_after(old(self).state@, *msg),
                *msg,
            ),
    {
        self.state.apply_message(msg);
        let ghost t0 = self.tracker@;
        let ghost s1 = self.state@;
        let mut events: Vec<VideohubEvent> = Vec::new();
        match msg {
            Message::DeviceInfo(info) => {
                let novel = self.tracker.note_device_info(info);
                if novel {
                    events.push(
                        VideohubEvent::DeviceStatus {
                            connected: true,
                            model_name: opt_string_copy(&info.model_name),
                            video_inputs: opt_u32_copy(&info.video_inputs),
                            video_outputs: opt_u32_copy(&info.video_outputs),
                        },
                    );
                }
                proof {
                    assert(events_view(events@) =~= message_events(t0, s1, *msg));
                }
            },
            Message::VideoOutputRouting(items) => {
                let n = items.len();
                for i in 0..n
                    invariant
                        n == items@.len(),
                        self.state@ == s1,
                        self.state@.wf(),
                        self.tracker@ == tracker_after_routes(t0, items@.take(i as int)),
                        events_view(events@) =~= route_events(t0, items@.take(i as int)),
                {
                    let r = items[i];
                    let novel = self.tracker.note_route(r.to_output, r.from_input);
                    if novel {
                        let input_label = self.tracker.input_label_of(r.from_input);
                        events.push(
                            VideohubEvent::Route {
                                output: r.to_output,
                                input: r.from_input,
                                input_label,
                            },
                        );
                    }
                    proof {
                        assert(items@.take(i + 1).drop_last() =~= items@.take(i as int));
                        assert(items@.take(i + 1).last() == items@[i as int]);
                        assert(events_view(events@) =~= route_events(t0, items@.take(i + 1)));
                    }
                }
                proof {
                    assert(items@.take(n as int) =~= items@);
                }
            },
            Message::InputLabels(items) => {
                let n = items.len();
                for i in 0..n
                    invariant
                        n == items@.len(),
                        self.state@ == s1,
                        self.state@.wf(),
                        self.tracker@ == tracker_after_labels(
                            t0, PortType::Input, items@.take(i as int)),
                        events_view(events@) =~= label_events(
                            t0, PortType::Input, items@.take(i as int)),
                {
                    let item = &items[i];
                    let novel = self.tracker.note_input_label(item.id, &item.name);
                    if novel {
                        events.push(
                            VideohubEvent::Label {
                                port_type: PortType::Input,
                                port: item.id,
                                label: item.name.clone(),
                            },
                        );
                    }
                    proof {
                        assert(items@.take(i + 1).drop_last() =~= items@.take(i as int));
                        assert(items@.take(i + 1).last() == items@[i as int]);
                        assert(events_view(events@) =~= label_events(
                            t0, PortType::Input, items@.take(i + 1)));
                    }
                }
                proof {
                    assert(items@.take(n as int) =~= items@);
                }
            },
            Message::OutputLabels(items) => {
                let n = items.len();
                for i in 0..n
                    invariant
                        n == items@.len(),
                        self.state@ == s1,
                        self.state@.wf(),
                        self.tracker@ == tracker_after_labels(
                            t0, PortType::Output, items@.take(i as int)),
                        events_view(events@) =~= label_events(
                            t0, PortType::Output, items@.take(i as int)),
                {
                    let item = &items[i];
                    let novel = self.tracker.note_output_label(item.id, &item.name);
                    if novel {
                        events.push(
                            VideohubEvent::Label {
                                port_type: PortType::Output,
                                port: item.id,
                                label: item.name.clone(),
                            },
                        );
                    }
                    proof {
                        assert(items@.take(i + 1).drop_last() =~= items@.take(i as int));
                        assert(items@.take(i + 1).last() == items@[i as int]);
                        assert(events_view(events@) =~= label_events(
                            t0, PortType::Output, items@.take(i + 1)));
                    }
                }
                proof {
                    assert(items@.take(n as int) =~= items@);
                }
            },
            Message::VideoOutputLocks(items) => {
                let n = items.len();
                for i in 0..n
                    invariant
                        n == items@.len(),
                        self.state@ == s1,
                        self.state@.wf(),
                        self.tracker@ == tracker_after_locks(t0, items@.take(i as int)),
                        events_view(events@) =~= lock_events(t0, items@.take(i as int)),
                {
                    let l = items[i];
                    let locked = l.is_locked();
                    let novel = self.tracker.note_output_lock(l.id, locked);
                    if novel {
                        events.push(VideohubEvent::OutputLock { output: l.id, locked });
                    }
                    proof {
                        assert(items@.take(i + 1).drop_last() =~= items@.take(i as int));
                        assert(items@.take(i + 1).last() == items@[i as int]);
                        assert(events_view(events@) =~= lock_events(t0, items@.take(i + 1)));
                    }
                }
                proof {
                    assert(items@.take(n as int) =~= items@);
                }
            },
            Message::EndPrelude => {
                self.tracker.clear_reconnect_flag();
                proof {
                    assert(events_view(events@) =~= message_events(t0, s1, *msg));
                }
            },
            _ => {
                let n = self.state.take_mode.len();
                for i in 0..n
                    invariant
                        n == self.state.take_mode@.len(),
                        self.state@ == s1,
                        self.state@.wf(),
                        self.tracker@ == tracker_after_take_modes(t0, s1.take_mode.take(i as int)),
                        events_view(events@) =~= take_mode_events(t0, s1.take_mode.take(i as int)),
                {
                    let e = self.state.take_mode[i];
                    let novel = self.tracker.note_take_mode(e.output, e.enabled);
                    if novel {
                        events.push(VideohubEvent::TakeMode { output: e.output, enabled: e.enabled });
                    }
                    proof {
                        assert(s1.take_mode.take(i + 1).drop_last() =~= s1.take_mode.take(i as int));
                        assert(s1.take_mode.take(i + 1).last() == s1.take_mode[i as int]);
                        assert(events_view(events@) =~= take_mode_events(
                            t0, s1.take_mode.take(i + 1)));
                    }
                }
                proof {
                    assert(s1.take_mode.take(n as int) =~= s1.take_mode);
                }
                let ghost t_mid = self.tracker@;
                let ghost scanned = events@;
                let m = self.state.network_interfaces.len();
                for i in 0..m
                    invariant
                        m == self.state.network_interfaces@.len(),
                        self.state@ == s1,
                        self.state@.wf(),
                        t_mid == tracker_after_take_modes(t0, s1.take_mode),
                        events_view(scanned) =~= take_mode_events(t0, s1.take_mode),
                        self.tracker@ == tracker_after_interfaces(
                            t_mid, s1.network_interfaces.take(i as int)),
                        events_view(events@) =~= events_view(scanned) + interface_events(
                            t_mid, s1.network_interfaces.take(i as int)),
                {
                    let ghost prev = events@;
                    let iface = &self.state.network_interfaces[i];
                    let novel = self.tracker.note_network_interface(iface);
                    if novel {
                        let copy = iface.duplicate();
                        events.push(VideohubEvent::NetworkInterface { interface: copy });
                    }
                    proof {
                        let full = s1.network_interfaces;
                        let before = events_view(scanned) + interface_events(
                            t_mid, full.take(i as int));
                        let v = EventView::NetworkInterface { interface: full[i as int] };
                        assert(full.take(i + 1).drop_last() =~= full.take(i as int));
                        assert(full.take(i + 1).last() == full[i as int]);
                        assert(self.state.network_interfaces@[i as int]@ == full[i as int]);
                        assert(events_view(prev) =~= before);
                        if novel {
                            assert(interface_events(t_mid, full.take(i + 1)) =~= interface_events(
                                t_mid, full.take(i as int)).push(v));
                            assert(events_view(events@) =~= events_view(prev).push(v));
                            assert(before.push(v) =~= events_view(scanned) + interface_events(
                                t_mid, full.take(i as int)).push(v));
                        } else {
                            assert(interface_events(t_mid, full.take(i + 1)) =~= interface_events(
                                t_mid, full.take(i as int)));
                        }
                        assert(events_view(events@) =~= events_view(scanned) + interface_events(
                            t_mid, full.take(i + 1)));
                    }
                }
                proof {
                    assert(s1.network_interfaces.take(m as int) =~= s1.network_interfaces);
                    assert(events_view(events@) =~= message_events(t0, s1, *msg));
                    assert(self.tracker@ == tracker_after_message(t0, s1, *msg));
                }
            },
        }
        events
    }
}

} // verus!
