//! How a simulator is launched.

use crate::decimal::{append_decimal, decimal};
use vstd::prelude::*;

verus! {

/// How to launch a simulator, and where its console then listens.
///
/// The simulation rate is meant to be positive; low rates make the simulator
/// numerically unstable. Nothing here enforces either.
#[derive(Clone, Debug, PartialEq, Eq)]
pub struct JSBSimProcessProperties {
    /// The name of the simulator's executable.
    pub executable_name: String,
    /// The simulator's root directory.
    pub root: String,
    /// The aircraft to load on start.
    pub aircraft: Option<String>,
    /// The initialization script to run for the aircraft on start.
    pub init_script: Option<String>,
    /// The script to run on start.
    pub script: Option<String>,
    /// The simulation rate, in Hz.
    pub simulation_hz: i32,
    /// Whether the simulation starts suspended.
    pub suspend_on_start: bool,
    /// Whether the simulation runs in real time.
    pub realtime: bool,
    /// The port on which the console listens.
    pub port: u16,
}

/// The model of a `JSBSimProcessProperties`.
pub struct Properties {
    pub executable_name: Seq<char>,
    pub root: Seq<char>,
    pub aircraft: Option<Seq<char>>,
    pub init_script: Option<Seq<char>>,
    pub script: Option<Seq<char>>,
    pub simulation_hz: int,
    pub suspend_on_start: bool,
    pub realtime: bool,
    pub port: int,
}

impl View for JSBSimProcessProperties {
    type V = Properties;

    open spec fn view(&self) -> Properties {
        Properties {
            executable_name: self.executable_name@,
            root: self.root@,
            aircraft: self.aircraft.deep_view(),
            init_script: self.init_script.deep_view(),
            script: self.script.deep_view(),
            simulation_hz: self.simulation_hz as int,
            suspend_on_start: self.suspend_on_start,
            realtime: self.realtime,
            port: self.port as int,
        }
    }
}

/// The properties for a simulator under test on this machine.
pub open spec fn default_properties() -> Properties {
    Properties {
        executable_name: "JSBSim"@,
        root: "./jsbsim_root"@,
        aircraft: Some("Concorde"@),
        init_script: Some("reset00"@),
        script: None,
        simulation_hz: 400,
        suspend_on_start: true,
        realtime: false,
        port: 5556,
    }
}

/// The argument that gives `value` under the flag `name`, where there is a value.
pub open spec fn optional(name: Seq<char>, value: Option<Seq<char>>) -> Seq<Seq<char>> {
    match value {
        Some(value) => seq![name + value],
        None => Seq::empty(),
    }
}

/// The argument `name`, where `on` holds.
pub open spec fn switch(name: Seq<char>, on: bool) -> Seq<Seq<char>> {
    if on {
        seq![name]
    } else {
        Seq::empty()
    }
}

/// The arguments with which the simulator is spawned.
pub open spec fn arguments(p: Properties) -> Seq<Seq<char>> {
    seq!["--simulation-rate="@ + decimal(p.simulation_hz), "--root="@ + p.root] + optional(
        "--aircraft="@,
        p.aircraft,
    ) + optional("--initfile="@, p.init_script) + optional("--script="@, p.script) + switch(
        "--suspend"@,
        p.suspend_on_start,
    ) + switch("--realtime"@, p.realtime)
}

/// The address at which the console of a spawned simulator listens.
pub open spec fn address(p: Properties) -> Seq<char> {
    "localhost:"@ + decimal(p.port)
}

impl Default for JSBSimProcessProperties {
    fn default() -> (r: Self)
        ensures
            r@ == default_properties(),
            r.wf(),
    {
        JSBSimProcessProperties {
            executable_name: "JSBSim".to_owned(),
            root: "./jsbsim_root".to_owned(),
            aircraft: Some("Concorde".to_owned()),
            init_script: Some("reset00".to_owned()),
            script: None,
            simulation_hz: 400,
            suspend_on_start: true,
            realtime: false,
            port: 5556,
        }
    }
}

fn push_optional(out: &mut Vec<String>, name: &str, value: &Option<String>)
    ensures
        final(out).deep_view() == old(out).deep_view() + optional(name@, value.deep_view()),
{
    match value {
        Some(value) => {
            let mut argument = name.to_owned();
            argument.append(value.as_str());
            out.push(argument);
        },
        None => {},
    }
    assert(out.deep_view() =~= old(out).deep_view() + optional(name@, value.deep_view()));
}

fn push_switch(out: &mut Vec<String>, name: &str, on: bool)
    ensures
        final(out).deep_view() == old(out).deep_view() + switch(name@, on),
{
    if on {
        out.push(name.to_owned());
    }
    assert(out.deep_view() =~= old(out).deep_view() + switch(name@, on));
}

impl JSBSimProcessProperties {
    /// Whether the simulation rate is positive.
    pub open spec fn wf(&self) -> bool {
        self.simulation_hz > 0
    }

    /// The arguments with which the simulator is spawned.
    pub fn arguments(&self) -> (r: Vec<String>)
        ensures
            r.deep_view() == arguments(self@),
    {
        let mut rate = "--simulation-rate=".to_owned();
        append_decimal(&mut rate, self.simulation_hz as i64);
        let mut root = "--root=".to_owned();
        root.append(self.root.as_str());
        let mut r: Vec<String> = Vec::new();
        r.push(rate);
        r.push(root);
        assert(r.deep_view() =~= seq![
            "--simulation-rate="@ + decimal(self@.simulation_hz),
            "--root="@ + self@.root,
        ]);
        push_optional(&mut r, "--aircraft=", &self.aircraft);
        push_optional(&mut r, "--initfile=", &self.init_script);
        push_optional(&mut r, "--script=", &self.script);
        push_switch(&mut r, "--suspend", self.suspend_on_start);
        push_switch(&mut r, "--realtime", self.realtime);
        r
    }

    /// The address at which the console of the spawned simulator listens.
    pub fn address(&self) -> (r: String)
        ensures
            r@ == address(self@),
    {
        let mut r = "localhost:".to_owned();
        append_decimal(&mut r, self.port as i64);
        r
    }
}

} // verus!
