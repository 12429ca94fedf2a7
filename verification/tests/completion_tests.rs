use systemd_language_server::completion::get_completion_items;
use systemd_language_server::knowledge::{candidate, closing_items, header_items};
use systemd_language_server::model::{CompletionItem, Position};

fn at(text: &str, line: usize) -> Vec<CompletionItem> {
    get_completion_items(text, &Position { line, character: 0 })
}

fn labels(items: &[CompletionItem]) -> Vec<String> {
    items.iter().map(|c| c.label.clone()).collect()
}

fn pairs(items: &[CompletionItem]) -> Vec<(String, String)> {
    items.iter().map(|c| (c.label.clone(), c.detail.clone())).collect()
}

fn owned(pairs: &[(&str, &str)]) -> Vec<(String, String)> {
    pairs.iter().map(|(a, b)| (a.to_string(), b.to_string())).collect()
}

const CLOSINGS: [&str; 6] = ["Unit]", "Service]", "Install]", "Socket]", "Mount]", "Timer]"];
const HEADERS: [&str; 6] = ["[Unit]", "[Service]", "[Install]", "[Socket]", "[Mount]", "[Timer]"];

#[test]
fn unterminated_header_offers_the_six_closings() {
    assert_eq!(labels(&at("[Un", 0)), CLOSINGS);
    assert_eq!(labels(&at("[", 0)), CLOSINGS);
    assert_eq!(labels(&at("[Zzz anything = at all", 0)), CLOSINGS);
    assert_eq!(labels(&at("[Service]\nType=simple\n   [Ins", 2)), CLOSINGS);
}

#[test]
fn closings_carry_their_descriptions() {
    assert_eq!(
        pairs(&at("[Un", 0)),
        owned(&[
            ("Unit]", "Unit configuration section"),
            ("Service]", "Service configuration section"),
            ("Install]", "Install configuration section"),
            ("Socket]", "Socket configuration section"),
            ("Mount]", "Mount configuration section"),
            ("Timer]", "Timer configuration section"),
        ])
    );
    assert_eq!(at("[Un", 0), closing_items());
}

#[test]
fn closing_bracket_anywhere_on_the_line_ends_the_header_context() {
    assert_eq!(labels(&at("[Un ]x", 0)), HEADERS);
    assert_eq!(labels(&at("[Unit]\n[Ser]=", 1)), vec![
        "Description=",
        "Documentation=",
        "Requires=",
        "Wants=",
        "After=",
        "Before=",
        "Conflicts="
    ]);
}

#[test]
fn blank_line_after_service_header_offers_service_keys() {
    assert_eq!(
        labels(&at("[Service]\n\n", 1)),
        vec![
            "Type=",
            "ExecStart=",
            "ExecStop=",
            "Restart=",
            "RestartSec=",
            "User=",
            "Group=",
            "WorkingDirectory="
        ]
    );
}

#[test]
fn service_keys_carry_their_descriptions() {
    assert_eq!(
        pairs(&at("[Service]\nx", 1)),
        owned(&[
            ("Type=", "Service type"),
            ("ExecStart=", "Start command"),
            ("ExecStop=", "Stop command"),
            ("Restart=", "Restart policy"),
            ("RestartSec=", "Restart interval"),
            ("User=", "Run as user"),
            ("Group=", "Run as group"),
            ("WorkingDirectory=", "Working directory"),
        ])
    );
}

#[test]
fn unit_section_offers_unit_keys() {
    assert_eq!(
        pairs(&at("[Unit]\nDesc", 1)),
        owned(&[
            ("Description=", "Unit description"),
            ("Documentation=", "Documentation URL"),
            ("Requires=", "Strong dependencies"),
            ("Wants=", "Weak dependencies"),
            ("After=", "Start order dependency"),
            ("Before=", "Start order dependency"),
            ("Conflicts=", "Conflicting units"),
        ])
    );
}

#[test]
fn install_socket_and_timer_have_key_lists() {
    assert_eq!(
        pairs(&at("[Install]\n\n", 1)),
        owned(&[
            ("WantedBy=", "Wanted by targets"),
            ("RequiredBy=", "Required by targets"),
            ("Alias=", "Unit alias"),
        ])
    );
    assert_eq!(
        pairs(&at("[Socket]\n\n", 1)),
        owned(&[
            ("ListenStream=", "Listen on TCP port"),
            ("ListenDatagram=", "Listen on UDP port"),
            ("Accept=", "Accept connections"),
        ])
    );
    assert_eq!(
        pairs(&at("[Timer]\n\n", 1)),
        owned(&[
            ("OnBootSec=", "Delay after boot"),
            ("OnUnitActiveSec=", "Delay after unit activation"),
            ("OnCalendar=", "Calendar-based trigger"),
        ])
    );
}

#[test]
fn header_line_itself_is_in_its_section() {
    assert_eq!(labels(&at("[Timer]\n", 0)), vec!["OnBootSec=", "OnUnitActiveSec=", "OnCalendar="]);
}

#[test]
fn outside_any_section_the_headers_are_offered() {
    assert_eq!(
        pairs(&at("# comment\n\n", 1)),
        owned(&[
            ("[Unit]", "Unit configuration section"),
            ("[Service]", "Service configuration section"),
            ("[Install]", "Install configuration section"),
            ("[Socket]", "Socket configuration section"),
            ("[Mount]", "Mount configuration section"),
            ("[Timer]", "Timer configuration section"),
        ])
    );
    assert_eq!(at("x", 0), header_items());
}

#[test]
fn mount_and_unknown_sections_fall_back_to_headers() {
    assert_eq!(labels(&at("[Mount]\nWhat=", 1)), HEADERS);
    assert_eq!(labels(&at("[Path]\n\n", 1)), HEADERS);
    assert_eq!(labels(&at("[unit]\n\n", 1)), HEADERS);
}

#[test]
fn section_name_is_trimmed_before_it_is_looked_up() {
    assert_eq!(labels(&at("[ Unit ]\n\n", 1))[0], "Description=");
    assert_eq!(labels(&at("  [\tService ]  \n\n", 1))[0], "Type=");
    assert_eq!(labels(&at("[ Mount ]\n\n", 1)), HEADERS);
}

#[test]
fn section_is_the_most_recent_one() {
    let text = "[Unit]\nA=b\n[Install]\n\n[Mount]\n\n";
    assert_eq!(labels(&at(text, 1))[0], "Description=");
    assert_eq!(labels(&at(text, 3))[0], "WantedBy=");
    assert_eq!(labels(&at(text, 5)), HEADERS);
}

#[test]
fn no_line_no_candidates() {
    assert_eq!(at("", 0), vec![]);
    assert_eq!(at("[Service]\n", 1), vec![]);
    assert_eq!(at("[Service]\nType=", 2), vec![]);
    assert_eq!(at("[Un", usize::MAX), vec![]);
}

#[test]
fn column_does_not_matter() {
    let text = "[Service]\nExecStart=/bin/true\n";
    let a = get_completion_items(text, &Position { line: 1, character: 0 });
    let b = get_completion_items(text, &Position { line: 1, character: 500 });
    assert_eq!(a, b);
}

#[test]
fn candidate_holds_label_and_detail() {
    let c = candidate("Type=", "Service type");
    assert_eq!(c.label, "Type=");
    assert_eq!(c.detail, "Service type");
}
