//! The diffing engine.
//!
//! The tracker holds the last-announced value of every tracked device fact,
//! together with the reconnect flag. For each incoming fact it decides whether
//! the fact is novel — the flag is set, or the cached value is absent or
//! different — and always records the new value, whatever it decided. Facts
//! are diffed one by one, so a message carrying a batch of facts yields one
//! decision per fact.

use vstd::prelude::*;

use std::collections::HashMap;

use crate::device::{DeviceInfo, DeviceInfoView, NetworkInterface, NetworkInterfaceView,
    opt_string_view};

verus! {

/// The mathematical state of the tracker: the reconnect flag and one map of
/// last-announced values per tracked fact kind.
#[verifier::ext_equal]
pub struct TrackerModel {
    pub reconnect: bool,
    pub device_info: Option<DeviceInfoView>,
    pub routes: Map<u32, u32>,
    pub input_labels: Map<u32, Seq<char>>,
    pub output_labels: Map<u32, Seq<char>>,
    pub output_locks: Map<u32, bool>,
    pub take_mode: Map<u32, bool>,
    pub network_interfaces: Map<u32, NetworkInterfaceView>,
}

impl TrackerModel {
    /// The state at session start: nothing announced yet, flag clear.
    pub open spec fn initial() -> TrackerModel {
        TrackerModel {
            reconnect: false,
            device_info: Option::None,
            routes: Map::empty(),
            input_labels: Map::empty(),
            output_labels: Map::empty(),
            output_locks: Map::empty(),
            take_mode: Map::empty(),
            network_interfaces: Map::empty(),
        }
    }

    /// The same state with the reconnect flag forced to `flag`.
    pub open spec fn with_reconnect(self, flag: bool) -> TrackerModel {
        TrackerModel { reconnect: flag, ..self }
    }

    /// Whether a device-info announcement is novel.
    pub open spec fn info_novel(self, info: DeviceInfoView) -> bool {
        self.reconnect || self.device_info != Option::Some(info)
    }

    /// The state after recording a device-info announcement.
    pub open spec fn with_info(self, info: DeviceInfoView) -> TrackerModel {
        TrackerModel { device_info: Option::Some(info), ..self }
    }

    /// Whether a routing pair is novel.
    pub open spec fn route_novel(self, output: u32, input: u32) -> bool {
        self.reconnect || !(self.routes.contains_key(output) && self.routes[output] == input)
    }

    /// The state after recording a routing pair.
    pub open spec fn with_route(self, output: u32, input: u32) -> TrackerModel {
        TrackerModel { routes: self.routes.insert(output, input), ..self }
    }

    /// Whether an input label is novel. Labels compare by exact character
    /// equality; a label that changes case is a change.
    pub open spec fn input_label_novel(self, id: u32, name: Seq<char>) -> bool {
        self.reconnect || !(self.input_labels.contains_key(id) && self.input_labels[id] == name)
    }

    /// The state after recording an input label.
    pub open spec fn with_input_label(self, id: u32, name: Seq<char>) -> TrackerModel {
        TrackerModel { input_labels: self.input_labels.insert(id, name), ..self }
    }

    /// Whether an output label is novel.
    pub open spec fn output_label_novel(self, id: u32, name: Seq<char>) -> bool {
        self.reconnect || !(self.output_labels.contains_key(id) && self.output_labels[id] == name)
    }

    /// The state after recording an output label.
    pub open spec fn with_output_label(self, id: u32, name: Seq<char>) -> TrackerModel {
        TrackerModel { output_labels: self.output_labels.insert(id, name), ..self }
    }

    /// Whether an output lock state is novel.
    pub open spec fn lock_novel(self, id: u32, locked: bool) -> bool {
        self.reconnect || !(self.output_locks.contains_key(id) && self.output_locks[id] == locked)
    }

    /// The state after recording an output lock state.
    pub open spec fn with_lock(self, id: u32, locked: bool) -> TrackerModel {
        TrackerModel { output_locks: self.output_locks.insert(id, locked), ..self }
    }

    /// Whether an output's take mode is novel.
    pub open spec fn take_mode_novel(self, id: u32, enabled: bool) -> bool {
        self.reconnect || !(self.take_mode.contains_key(id) && self.take_mode[id] == enabled)
    }

    /// The state after recording an output's take mode.
    pub open spec fn with_take_mode(self, id: u32, enabled: bool) -> TrackerModel {
        TrackerModel { take_mode: self.take_mode.insert(id, enabled), ..self }
    }

    /// Whether a network interface is novel. Interfaces compare by full
    /// structural equality; any field difference is a change.
    pub open spec fn interface_novel(self, iface: NetworkInterfaceView) -> bool {
        self.reconnect || !(self.network_interfaces.contains_key(iface.id)
            && self.network_interfaces[iface.id] == iface)
    }

    /// The state after recording a network interface.
    pub open spec fn with_interface(self, iface: NetworkInterfaceView) -> TrackerModel {
        TrackerModel {
            network_interfaces: self.network_interfaces.insert(iface.id, iface),
            ..self
        }
    }

    /// The last-announced label of an input, if one is cached.
    pub open spec fn label_lookup(self, input: u32) -> Option<Seq<char>> {
        if self.input_labels.contains_key(input) {
            Option::Some(self.input_labels[input])
        } else {
            Option::None
        }
    }
}

/// The diffing engine: last-announced values plus the reconnect flag.
pub struct StateTracker {
    reconnect: bool,
    device_info: Option<DeviceInfo>,
    routes: HashMap<u32, u32>,
    input_labels: HashMap<u32, String>,
    output_labels: HashMap<u32, String>,
    output_locks: HashMap<u32, bool>,
    take_mode: HashMap<u32, bool>,
    network_interfaces: HashMap<u32, NetworkInterface>,
}

impl View for StateTracker {
    type V = TrackerModel;

    closed spec fn view(&self) -> TrackerModel {
        TrackerModel {
            reconnect: self.reconnect,
            device_info: match self.device_info {
                Option::Some(i) => Option::Some(i@),
                Option::None => Option::None,
            },
            routes: self.routes@,
            input_labels: self.input_labels@.map_values(|s: String| s@),
            output_labels: self.output_labels@.map_values(|s: String| s@),
            output_locks: self.output_locks@,
            take_mode: self.take_mode@,
            network_interfaces: self.network_interfaces@.map_values(
                |n: NetworkInterface| n@,
            ),
        }
    }
}

impl StateTracker {
    /// A tracker with nothing announced and the reconnect flag clear.
    pub fn new() -> (t: StateTracker)
        ensures
            t@ == TrackerModel::initial(),
    {
        let t = StateTracker {
            reconnect: false,
            device_info: Option::None,
            routes: HashMap::new(),
            input_labels: HashMap::new(),
            output_labels: HashMap::new(),
            output_locks: HashMap::new(),
            take_mode: HashMap::new(),
            network_interfaces: HashMap::new(),
        };
        proof {
            assert(t@ =~= TrackerModel::initial());
        }
        t
    }

    /// Whether the next facts must all be treated as novel.
    pub fn just_reconnected(&self) -> (r: bool)
        ensures
            r == self@.reconnect,
    {
        self.reconnect
    }

    /// Sets the reconnect flag: every fact is novel until the flag is
    /// cleared.
    pub fn set_reconnect_flag(&mut self)
        ensures
            final(self)@ == old(self)@.with_reconnect(true),
    {
        self.reconnect = true;
        proof {
            assert(self@ =~= old(self)@.with_reconnect(true));
        }
    }

    /// Clears the reconnect flag: suppression of unchanged facts resumes.
    pub fn clear_reconnect_flag(&mut self)
        ensures
            final(self)@ == old(self)@.with_reconnect(false),
    {
        self.reconnect = false;
        proof {
            assert(self@ =~= old(self)@.with_reconnect(false));
        }
    }

    /// Diffs and records a device-info announcement.
    pub fn note_device_info(&mut self, info: &DeviceInfo) -> (novel: bool)
        ensures
            novel == old(self)@.info_novel(info@),
            final(self)@ == old(self)@.with_info(info@),
    {
        let novel = self.reconnect || match &self.device_info {
            Option::Some(cur) => !cur.eq_info(info),
            Option::None => true,
        };
        self.device_info = Option::Some(info.duplicate());
        proof {
            assert(self@ =~= old(self)@.with_info(info@));
        }
        novel
    }

    /// The last-announced device info, if any.
    pub fn device_info_snapshot(&self) -> (r: Option<DeviceInfo>)
        ensures
            match (r, self@.device_info) {
                (Option::Some(a), Option::Some(b)) => a@ == b,
                (Option::None, Option::None) => true,
                _ => false,
            },
    {
        match &self.device_info {
            Option::Some(i) => Option::Some(i.duplicate()),
            Option::None => Option::None,
        }
    }

    /// Diffs and records a routing pair.
    pub fn note_route(&mut self, output: u32, input: u32) -> (novel: bool)
        ensures
            novel == old(self)@.route_novel(output, input),
            final(self)@ == old(self)@.with_route(output, input),
    {
        let novel = self.reconnect || match self.routes.get(&output) {
            Option::Some(cur) => *cur != input,
            Option::None => true,
        };
        self.routes.insert(output, input);
        proof {
            assert(self@ =~= old(self)@.with_route(output, input));
        }
        novel
    }

    /// Diffs and records an input label.
    pub fn note_input_label(&mut self, id: u32, name: &String) -> (novel: bool)
        ensures
            novel == old(self)@.input_label_novel(id, name@),
            final(self)@ == old(self)@.with_input_label(id, name@),
    {
        let novel = self.reconnect || match self.input_labels.get(&id) {
            Option::Some(cur) => !(*cur == *name),
            Option::None => true,
        };
        self.input_labels.insert(id, name.clone());
        proof {
            assert(self@.input_labels =~= old(self)@.input_labels.insert(id, name@));
            assert(self@ =~= old(self)@.with_input_label(id, name@));
        }
        novel
    }

    /// Diffs and records an output label.
    pub fn note_output_label(&mut self, id: u32, name: &String) -> (novel: bool)
        ensures
            novel == old(self)@.output_label_novel(id, name@),
            final(self)@ == old(self)@.with_output_label(id, name@),
    {
        let novel = self.reconnect || match self.output_labels.get(&id) {
            Option::Some(cur) => !(*cur == *name),
            Option::None => true,
        };
        self.output_labels.insert(id, name.clone());
        proof {
            assert(self@.output_labels =~= old(self)@.output_labels.insert(id, name@));
            assert(self@ =~= old(self)@.with_output_label(id, name@));
        }
        novel
    }

    /// Diffs and records an output lock state.
    pub fn note_output_lock(&mut self, id: u32, locked: bool) -> (novel: bool)
        ensures
            novel == old(self)@.lock_novel(id, locked),
            final(self)@ == old(self)@.with_lock(id, locked),
    {
        let novel = self.reconnect || match self.output_locks.get(&id) {
            Option::Some(cur) => *cur != locked,
            Option::None => true,
        };
        self.output_locks.insert(id, locked);
        proof {
            assert(self@ =~= old(self)@.with_lock(id, locked));
        }
        novel
    }

    /// Diffs and records an output's take mode.
    pub fn note_take_mode(&mut self, id: u32, enabled: bool) -> (novel: bool)
        ensures
            novel == old(self)@.take_mode_novel(id, enabled),
            final(self)@ == old(self)@.with_take_mode(id, enabled),
    {
        let novel = self.reconnect || match self.take_mode.get(&id) {
            Option::Some(cur) => *cur != enabled,
            Option::None => true,
        };
        self.take_mode.insert(id, enabled);
        proof {
            assert(self@ =~= old(self)@.with_take_mode(id, enabled));
        }
        novel
    }

    /// Diffs and records a network interface.
    pub fn note_network_interface(&mut self, iface: &NetworkInterface) -> (novel: bool)
        ensures
            novel == old(self)@.interface_novel(iface@),
            final(self)@ == old(self)@.with_interface(iface@),
    {
        let novel = self.reconnect || match self.network_interfaces.get(&iface.id) {
            Option::Some(cur) => !cur.eq_interface(iface),
            Option::None => true,
        };
        self.network_interfaces.insert(iface.id, iface.duplicate());
        proof {
            assert(self@.network_interfaces =~= old(self)@.network_interfaces.insert(
                iface.id, iface@));
            assert(self@ =~= old(self)@.with_interface(iface@));
        }
        novel
    }

    /// The last-announced label of an input, if one is cached.
    pub fn input_label_of(&self, input: u32) -> (r: Option<String>)
        ensures
            opt_string_view(r) == self@.label_lookup(input),
    {
        match self.input_labels.get(&input) {
            Option::Some(s) => Option::Some(s.clone()),
            Option::None => Option::None,
        }
    }
}

/// How many of `n` consecutive replays of one routing pair are found novel,
/// starting from `t`.
pub open spec fn route_replay_emissions(t: TrackerModel, output: u32, input: u32, n: nat) -> nat
    decreases n,
{
    if n == 0 {
        0
    } else {
        (if t.route_novel(output, input) {
            1nat
        } else {
            0nat
        }) + route_replay_emissions(t.with_route(output, input), output, input, (n - 1) as nat)
    }
}

/// Diff suppression: with the reconnect flag clear, any run of identical
/// routing re-announcements is found novel at most once, however long the
/// run. In particular, sending the same pair twice in a row yields exactly
/// one novel decision when the pair was not already cached.
pub proof fn lemma_route_diff_suppression(t: TrackerModel, output: u32, input: u32, n: nat)
    requires
        !t.reconnect,
    ensures
        route_replay_emissions(t, output, input, n) <= 1,
        n >= 1 && !(t.routes.contains_key(output) && t.routes[output] == input)
            ==> route_replay_emissions(t, output, input, n) == 1,
    decreases n,
{
    if n > 0 {
        let t1 = t.with_route(output, input);
        assert(t1.routes.contains_key(output) && t1.routes[output] == input);
        lemma_route_replay_silent(t1, output, input, (n - 1) as nat);
    }
}

/// A tracker that already caches a routing pair, with the reconnect flag
/// clear, finds replays of that pair non-novel forever.
pub proof fn lemma_route_replay_silent(t: TrackerModel, output: u32, input: u32, n: nat)
    requires
        !t.reconnect,
        t.routes.contains_key(output) && t.routes[output] == input,
    ensures
        route_replay_emissions(t, output, input, n) == 0,
    decreases n,
{
    if n > 0 {
        assert(!t.route_novel(output, input));
        lemma_route_replay_silent(t.with_route(output, input), output, input, (n - 1) as nat);
    }
}

/// The label analogue of diff suppression: recording a label makes an
/// immediate replay of the identical label non-novel, and the replay leaves
/// the cache unchanged.
pub proof fn lemma_label_diff_suppression(t: TrackerModel, id: u32, name: Seq<char>)
    requires
        !t.reconnect,
    ensures
        !t.with_input_label(id, name).input_label_novel(id, name),
        t.with_input_label(id, name).with_input_label(id, name) == t.with_input_label(id, name),
{
    let t1 = t.with_input_label(id, name);
    assert(t1.input_labels.insert(id, name) =~= t1.input_labels);
    assert(t1.with_input_label(id, name) =~= t1);
}

/// Reconnect re-announcement: once the reconnect flag is set, even a value
/// identical to the cached one is novel again; clearing the flag restores
/// suppression of that same value.
pub proof fn lemma_reconnect_reannounce(t: TrackerModel, output: u32, input: u32)
    ensures
        t.with_route(output, input).with_reconnect(true).route_novel(output, input),
        !t.with_route(output, input).with_reconnect(true).with_reconnect(false).route_novel(
            output, input),
{
}

} // verus!
