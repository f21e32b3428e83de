//! What a front end shows of a target and how its "add target" form behaves.
//!
//! Nothing here draws anything: these are the rules a front end follows,
//! stated on plain values.

use vstd::prelude::*;
use crate::config::{Protocol, SystemConfig, SystemConfigView};
use crate::monitor::text::{decimal, decimal_text, endpoint, endpoint_text};

verus! {

/// Response times below this many milliseconds count as fast.
pub const FAST_BELOW_MS: u64 = 100;

/// Response times below this many milliseconds, and not fast, count as
/// moderate; the rest as slow.
pub const MODERATE_BELOW_MS: u64 = 500;

/// The list of targets is read afresh every this many frames.
pub const FRAMES_PER_REFRESH: u64 = 60;

/// Colour of the dot in front of a target.
#[derive(Debug, Clone, Copy, PartialEq, Eq, Structural)]
pub enum StatusColor {
    Green,
    Yellow,
    Orange,
    Red,
}

/// The colour for a target: red while offline; while online green for a
/// fast or unknown response time, yellow for a moderate one, orange for a
/// slow one.
pub open spec fn status_color_of(is_online: bool, response_time_ms: Option<u64>) -> StatusColor {
    if !is_online {
        StatusColor::Red
    } else {
        match response_time_ms {
            None => StatusColor::Green,
            Some(ms) => if ms < 100 {
                StatusColor::Green
            } else if ms < 500 {
                StatusColor::Yellow
            } else {
                StatusColor::Orange
            },
        }
    }
}

/// The colour of the dot in front of a target.
pub fn status_color(is_online: bool, response_time_ms: Option<u64>) -> (color: StatusColor)
    ensures
        color == status_color_of(is_online, response_time_ms),
{
    if is_online {
        match response_time_ms {
            Some(ms) => {
                if ms < FAST_BELOW_MS {
                    StatusColor::Green
                } else if ms < MODERATE_BELOW_MS {
                    StatusColor::Yellow
                } else {
                    StatusColor::Orange
                }
            },
            None => StatusColor::Green,
        }
    } else {
        StatusColor::Red
    }
}

/// The protocol at a position of the protocol chooser: ping, TCP, UDP, and
/// ping again for any position past those.
pub open spec fn protocol_at_spec(index: usize) -> Protocol {
    if index == 1 {
        Protocol::Tcp
    } else if index == 2 {
        Protocol::Udp
    } else {
        Protocol::Ping
    }
}

/// The protocol at a position of the protocol chooser.
pub fn protocol_at(index: usize) -> (protocol: Protocol)
    ensures
        protocol == protocol_at_spec(index),
{
    if index == 1 {
        Protocol::Tcp
    } else if index == 2 {
        Protocol::Udp
    } else {
        Protocol::Ping
    }
}

/// Where a target is reached, as shown in the table: `host:port`, or the
/// host alone where no port is set.
pub open spec fn host_label_of(target: SystemConfigView) -> Seq<char> {
    match target.port {
        Some(port) => endpoint_text(target.host, port),
        None => target.host,
    }
}

/// Where a target is reached, as shown in the table.
pub fn host_label(target: &SystemConfig) -> (label: String)
    ensures
        label@ == host_label_of(target@),
{
    match target.port {
        Some(port) => endpoint(target.host.as_str(), port),
        None => target.host.clone(),
    }
}

/// The response time as shown in the table: the milliseconds followed by
/// `ms`, or a dash where none is known.
pub open spec fn response_label_of(response_time_ms: Option<u64>) -> Seq<char> {
    match response_time_ms {
        Some(ms) => decimal(ms as nat) + "ms"@,
        None => "-"@,
    }
}

/// The response time as shown in the table.
pub fn response_label(response_time_ms: Option<u64>) -> (label: String)
    ensures
        label@ == response_label_of(response_time_ms),
{
    match response_time_ms {
        Some(ms) => {
            let mut label = decimal_text(ms);
            label.append("ms");
            label
        },
        None => "-".to_string(),
    }
}

/// Whether the list of targets is read afresh in the frame with this count.
pub fn is_refresh_frame(frame: u64) -> (due: bool)
    ensures
        due == (frame % 60 == 0),
{
    frame % FRAMES_PER_REFRESH == 0
}

/// The form in which a new target is entered.
#[derive(Debug, PartialEq, Eq)]
pub struct AddForm {
    /// Whether the form is on screen.
    pub visible: bool,
    /// The target as entered so far. Its protocol is set on submission.
    pub draft: SystemConfig,
    /// Position of the protocol chooser.
    pub selected_protocol: usize,
}

/// Mathematical content of an [`AddForm`].
pub struct AddFormView {
    pub visible: bool,
    pub draft: SystemConfigView,
    pub selected_protocol: usize,
}

impl View for AddForm {
    type V = AddFormView;

    open spec fn view(&self) -> AddFormView {
        AddFormView {
            visible: self.visible,
            draft: self.draft@,
            selected_protocol: self.selected_protocol,
        }
    }
}

impl AddFormView {
    /// The form before anything is entered: hidden, no name, no host, no
    /// port, ping chosen, the target enabled.
    pub open spec fn blank() -> AddFormView {
        AddFormView {
            visible: false,
            draft: SystemConfigView {
                name: Seq::empty(),
                host: Seq::empty(),
                port: None,
                protocol: Protocol::Ping,
                enabled: true,
            },
            selected_protocol: 0,
        }
    }

    /// The target that submitting the form yields: the draft, with the
    /// protocol that is chosen.
    pub open spec fn submitted(self) -> SystemConfigView {
        SystemConfigView {
            name: self.draft.name,
            host: self.draft.host,
            port: self.draft.port,
            protocol: protocol_at_spec(self.selected_protocol),
            enabled: self.draft.enabled,
        }
    }
}

impl AddForm {
    /// The form before anything is entered.
    pub fn new() -> (form: Self)
        ensures
            form@ == AddFormView::blank(),
    {
        AddForm {
            visible: false,
            draft: SystemConfig {
                name: String::new(),
                host: String::new(),
                port: None,
                protocol: Protocol::Ping,
                enabled: true,
            },
            selected_protocol: 0,
        }
    }

    /// Whether the form may be submitted: it names the target and its host.
    pub fn is_complete(&self) -> (complete: bool)
        ensures
            complete == (self@.draft.name.len() > 0 && self@.draft.host.len() > 0),
    {
        !self.draft.name.as_str().is_empty() && !self.draft.host.as_str().is_empty()
    }

    /// Whether the form asks for a port: for every choice but ping.
    pub fn asks_port(&self) -> (asks: bool)
        ensures
            asks == (self.selected_protocol != 0),
    {
        self.selected_protocol != 0
    }

    /// Takes the target out of the form, with the protocol that is chosen,
    /// and leaves the form blank and hidden.
    pub fn submit(&mut self) -> (target: SystemConfig)
        ensures
            target@ == old(self)@.submitted(),
            final(self)@ == AddFormView::blank(),
    {
        let mut filled = AddForm::new();
        std::mem::swap(self, &mut filled);
        SystemConfig {
            name: filled.draft.name,
            host: filled.draft.host,
            port: filled.draft.port,
            protocol: protocol_at(filled.selected_protocol),
            enabled: filled.draft.enabled,
        }
    }
}

} // verus!
