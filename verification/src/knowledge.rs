//! The knowledge tables: what is known of each section and key, and the
//! candidates that completion offers. They are fixed: nothing extends them
//! while the engine runs.

use crate::model::{candidate_views, CandidateView, CompletionItem};
use crate::text::{span_is, Span};
use vstd::prelude::*;
use vstd::string::*;

verus! {

/// What is known of the section `name`, for the six sections of a unit description.
pub open spec fn section_description(name: Seq<char>) -> Option<Seq<char>> {
    if name == "Unit"@ {
        Some(
            "The Unit section contains basic information about the unit, such as description and dependencies."@,
        )
    } else if name == "Service"@ {
        Some(
            "The Service section contains service configuration, such as start commands and restart policies."@,
        )
    } else if name == "Install"@ {
        Some(
            "The Install section contains installation information, such as which targets want this unit."@,
        )
    } else if name == "Socket"@ {
        Some(
            "The Socket section contains socket configuration, such as listening addresses and ports."@,
        )
    } else if name == "Mount"@ {
        Some("The Mount section contains mount point configuration."@)
    } else if name == "Timer"@ {
        Some(
            "The Timer section contains timer configuration, used for scheduled service activation."@,
        )
    } else {
        None
    }
}

/// What is known of the key `name`, for the ten keys that the table covers.
pub open spec fn key_description(name: Seq<char>) -> Option<Seq<char>> {
    if name == "Description"@ {
        Some("Describes the unit's function and purpose."@)
    } else if name == "After"@ {
        Some("Defines start order, this unit will start after the specified units."@)
    } else if name == "Before"@ {
        Some("Defines start order, this unit will start before the specified units."@)
    } else if name == "Requires"@ {
        Some(
            "Strong dependency relationship, if the dependency fails, this unit will also fail."@,
        )
    } else if name == "Wants"@ {
        Some("Weak dependency relationship, dependency failure won't affect this unit."@)
    } else if name == "ExecStart"@ {
        Some(
            "Defines the command to execute when the service starts. Should use absolute paths."@,
        )
    } else if name == "ExecStop"@ {
        Some("Defines the command to execute when the service stops."@)
    } else if name == "Type"@ {
        Some(
            "Defines the service type, can be simple, forking, oneshot, dbus, notify, or idle."@,
        )
    } else if name == "Restart"@ {
        Some("Defines the restart policy when the service exits."@)
    } else if name == "WantedBy"@ {
        Some("Specifies which targets want this unit, used for enabling the unit."@)
    } else {
        None
    }
}

/// Executable form of [`section_description`], on the piece `name` of `chars`.
pub fn describe_section(chars: &Vec<char>, name: Span) -> (text: Option<&'static str>)
    requires
        name.within(chars@.len()),
    ensures
        text is Some <==> section_description(name.of(chars@)) is Some,
        text matches Some(t) ==> section_description(name.of(chars@)) == Some(t@),
{
    if span_is(chars, name, "Unit") {
        Some(
            "The Unit section contains basic information about the unit, such as description and dependencies.",
        )
    } else if span_is(chars, name, "Service") {
        Some(
            "The Service section contains service configuration, such as start commands and restart policies.",
        )
    } else if span_is(chars, name, "Install") {
        Some(
            "The Install section contains installation information, such as which targets want this unit.",
        )
    } else if span_is(chars, name, "Socket") {
        Some(
            "The Socket section contains socket configuration, such as listening addresses and ports.",
        )
    } else if span_is(chars, name, "Mount") {
        Some("The Mount section contains mount point configuration.")
    } else if span_is(chars, name, "Timer") {
        Some(
            "The Timer section contains timer configuration, used for scheduled service activation.",
        )
    } else {
        None
    }
}

/// Executable form of [`key_description`], on the piece `name` of `chars`.
pub fn describe_key(chars: &Vec<char>, name: Span) -> (text: Option<&'static str>)
    requires
        name.within(chars@.len()),
    ensures
        text is Some <==> key_description(name.of(chars@)) is Some,
        text matches Some(t) ==> key_description(name.of(chars@)) == Some(t@),
{
    if span_is(chars, name, "Description") {
        Some("Describes the unit's function and purpose.")
    } else if span_is(chars, name, "After") {
        Some("Defines start order, this unit will start after the specified units.")
    } else if span_is(chars, name, "Before") {
        Some("Defines start order, this unit will start before the specified units.")
    } else if span_is(chars, name, "Requires") {
        Some(
            "Strong dependency relationship, if the dependency fails, this unit will also fail.",
        )
    } else if span_is(chars, name, "Wants") {
        Some("Weak dependency relationship, dependency failure won't affect this unit.")
    } else if span_is(chars, name, "ExecStart") {
        Some(
            "Defines the command to execute when the service starts. Should use absolute paths.",
        )
    } else if span_is(chars, name, "ExecStop") {
        Some("Defines the command to execute when the service stops.")
    } else if span_is(chars, name, "Type") {
        Some(
            "Defines the service type, can be simple, forking, oneshot, dbus, notify, or idle.",
        )
    } else if span_is(chars, name, "Restart") {
        Some("Defines the restart policy when the service exits.")
    } else if span_is(chars, name, "WantedBy") {
        Some("Specifies which targets want this unit, used for enabling the unit.")
    } else {
        None
    }
}

/// The candidates that close a header being typed: each section name with its closing bracket.
pub open spec fn closing_candidates() -> Seq<CandidateView> {
    seq![
        ("Unit]"@, "Unit configuration section"@),
        ("Service]"@, "Service configuration section"@),
        ("Install]"@, "Install configuration section"@),
        ("Socket]"@, "Socket configuration section"@),
        ("Mount]"@, "Mount configuration section"@),
        ("Timer]"@, "Timer configuration section"@),
    ]
}

/// The candidates outside any section with a key list: each section header in full.
pub open spec fn header_candidates() -> Seq<CandidateView> {
    seq![
        ("[Unit]"@, "Unit configuration section"@),
        ("[Service]"@, "Service configuration section"@),
        ("[Install]"@, "Install configuration section"@),
        ("[Socket]"@, "Socket configuration section"@),
        ("[Mount]"@, "Mount configuration section"@),
        ("[Timer]"@, "Timer configuration section"@),
    ]
}

/// The keys offered in a `Unit` section, each followed by `=`.
pub open spec fn unit_keys() -> Seq<CandidateView> {
    seq![
        ("Description="@, "Unit description"@),
        ("Documentation="@, "Documentation URL"@),
        ("Requires="@, "Strong dependencies"@),
        ("Wants="@, "Weak dependencies"@),
        ("After="@, "Start order dependency"@),
        ("Before="@, "Start order dependency"@),
        ("Conflicts="@, "Conflicting units"@),
    ]
}

/// The keys offered in a `Service` section, each followed by `=`.
pub open spec fn service_keys() -> Seq<CandidateView> {
    seq![
        ("Type="@, "Service type"@),
        ("ExecStart="@, "Start command"@),
        ("ExecStop="@, "Stop command"@),
        ("Restart="@, "Restart policy"@),
        ("RestartSec="@, "Restart interval"@),
        ("User="@, "Run as user"@),
        ("Group="@, "Run as group"@),
        ("WorkingDirectory="@, "Working directory"@),
    ]
}

/// The keys offered in a `Install` section, each followed by `=`.
pub open spec fn install_keys() -> Seq<CandidateView> {
    seq![
        ("WantedBy="@, "Wanted by targets"@),
        ("RequiredBy="@, "Required by targets"@),
        ("Alias="@, "Unit alias"@),
    ]
}

/// The keys offered in a `Socket` section, each followed by `=`.
pub open spec fn socket_keys() -> Seq<CandidateView> {
    seq![
        ("ListenStream="@, "Listen on TCP port"@),
        ("ListenDatagram="@, "Listen on UDP port"@),
        ("Accept="@, "Accept connections"@),
    ]
}

/// The keys offered in a `Timer` section, each followed by `=`.
pub open spec fn timer_keys() -> Seq<CandidateView> {
    seq![
        ("OnBootSec="@, "Delay after boot"@),
        ("OnUnitActiveSec="@, "Delay after unit activation"@),
        ("OnCalendar="@, "Calendar-based trigger"@),
    ]
}

/// The key list of the section `name`. `Unit`, `Service`, `Install`, `Socket`
/// and `Timer` have one; no other name does, `Mount` included.
pub open spec fn section_keys(name: Seq<char>) -> Option<Seq<CandidateView>> {
    if name == "Unit"@ {
        Some(unit_keys())
    } else if name == "Service"@ {
        Some(service_keys())
    } else if name == "Install"@ {
        Some(install_keys())
    } else if name == "Socket"@ {
        Some(socket_keys())
    } else if name == "Timer"@ {
        Some(timer_keys())
    } else {
        None
    }
}

/// The candidates for a cursor in `section`: the key list of the section
/// where it has one, else the section headers.
pub open spec fn candidates_in(section: Option<Seq<char>>) -> Seq<CandidateView> {
    match section {
        Some(name) => match section_keys(name) {
            Some(keys) => keys,
            None => header_candidates(),
        },
        None => header_candidates(),
    }
}

/// A candidate with the given label and description.
pub fn candidate(label: &str, detail: &str) -> (item: CompletionItem)
    ensures
        item@ == (label@, detail@),
{
    CompletionItem { label: String::from_str(label), detail: String::from_str(detail) }
}

/// Executable form of [`closing_candidates`].
pub fn closing_items() -> (items: Vec<CompletionItem>)
    ensures
        candidate_views(items@) == closing_candidates(),
{
    let mut items: Vec<CompletionItem> = Vec::new();
    items.push(candidate("Unit]", "Unit configuration section"));
    items.push(candidate("Service]", "Service configuration section"));
    items.push(candidate("Install]", "Install configuration section"));
    items.push(candidate("Socket]", "Socket configuration section"));
    items.push(candidate("Mount]", "Mount configuration section"));
    items.push(candidate("Timer]", "Timer configuration section"));
    proof {
        assert(candidate_views(items@) =~= closing_candidates());
    }
    items
}

/// Executable form of [`header_candidates`].
pub fn header_items() -> (items: Vec<CompletionItem>)
    ensures
        candidate_views(items@) == header_candidates(),
{
    let mut items: Vec<CompletionItem> = Vec::new();
    items.push(candidate("[Unit]", "Unit configuration section"));
    items.push(candidate("[Service]", "Service configuration section"));
    items.push(candidate("[Install]", "Install configuration section"));
    items.push(candidate("[Socket]", "Socket configuration section"));
    items.push(candidate("[Mount]", "Mount configuration section"));
    items.push(candidate("[Timer]", "Timer configuration section"));
    proof {
        assert(candidate_views(items@) =~= header_candidates());
    }
    items
}

/// Executable form of [`unit_keys`].
pub fn unit_key_items() -> (items: Vec<CompletionItem>)
    ensures
        candidate_views(items@) == unit_keys(),
{
    let mut items: Vec<CompletionItem> = Vec::new();
    items.push(candidate("Description=", "Unit description"));
    items.push(candidate("Documentation=", "Documentation URL"));
    items.push(candidate("Requires=", "Strong dependencies"));
    items.push(candidate("Wants=", "Weak dependencies"));
    items.push(candidate("After=", "Start order dependency"));
    items.push(candidate("Before=", "Start order dependency"));
    items.push(candidate("Conflicts=", "Conflicting units"));
    proof {
        assert(candidate_views(items@) =~= unit_keys());
    }
    items
}

/// Executable form of [`service_keys`].
pub fn service_key_items() -> (items: Vec<CompletionItem>)
    ensures
        candidate_views(items@) == service_keys(),
{
    let mut items: Vec<CompletionItem> = Vec::new();
    items.push(candidate("Type=", "Service type"));
    items.push(candidate("ExecStart=", "Start command"));
    items.push(candidate("ExecStop=", "Stop command"));
    items.push(candidate("Restart=", "Restart policy"));
    items.push(candidate("RestartSec=", "Restart interval"));
    items.push(candidate("User=", "Run as user"));
    items.push(candidate("Group=", "Run as group"));
    items.push(candidate("WorkingDirectory=", "Working directory"));
    proof {
        assert(candidate_views(items@) =~= service_keys());
    }
    items
}

/// Executable form of [`install_keys`].
pub fn install_key_items() -> (items: Vec<CompletionItem>)
    ensures
        candidate_views(items@) == install_keys(),
{
    let mut items: Vec<CompletionItem> = Vec::new();
    items.push(candidate("WantedBy=", "Wanted by targets"));
    items.push(candidate("RequiredBy=", "Required by targets"));
    items.push(candidate("Alias=", "Unit alias"));
    proof {
        assert(candidate_views(items@) =~= install_keys());
    }
    items
}

/// Executable form of [`socket_keys`].
pub fn socket_key_items() -> (items: Vec<CompletionItem>)
    ensures
        candidate_views(items@) == socket_keys(),
{
    let mut items: Vec<CompletionItem> = Vec::new();
    items.push(candidate("ListenStream=", "Listen on TCP port"));
    items.push(candidate("ListenDatagram=", "Listen on UDP port"));
    items.push(candidate("Accept=", "Accept connections"));
    proof {
        assert(candidate_views(items@) =~= socket_keys());
    }
    items
}

/// Executable form of [`timer_keys`].
pub fn timer_key_items() -> (items: Vec<CompletionItem>)
    ensures
        candidate_views(items@) == timer_keys(),
{
    let mut items: Vec<CompletionItem> = Vec::new();
    items.push(candidate("OnBootSec=", "Delay after boot"));
    items.push(candidate("OnUnitActiveSec=", "Delay after unit activation"));
    items.push(candidate("OnCalendar=", "Calendar-based trigger"));
    proof {
        assert(candidate_views(items@) =~= timer_keys());
    }
    items
}

/// The piece of `chars` that `section` covers, if it is one.
pub open spec fn name_of(chars: Seq<char>, section: Option<Span>) -> Option<Seq<char>> {
    match section {
        Some(name) => Some(name.of(chars)),
        None => None,
    }
}

/// Executable form of [`candidates_in`], on the piece `section` of `chars`.
pub fn items_in(chars: &Vec<char>, section: Option<Span>) -> (items: Vec<CompletionItem>)
    requires
        section matches Some(name) ==> name.within(chars@.len()),
    ensures
        candidate_views(items@) == candidates_in(name_of(chars@, section)),
{
    match section {
        Some(name) => {
            if span_is(chars, name, "Unit") {
                unit_key_items()
            } else if span_is(chars, name, "Service") {
                service_key_items()
            } else if span_is(chars, name, "Install") {
                install_key_items()
            } else if span_is(chars, name, "Socket") {
                socket_key_items()
            } else if span_is(chars, name, "Timer") {
                timer_key_items()
            } else {
                header_items()
            }
        },
        None => header_items(),
    }
}

} // verus!
