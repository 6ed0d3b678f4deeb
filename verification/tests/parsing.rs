use tmmx::parse::{parse_panes, parse_sessions, parse_u32_field, parse_u64_field, parse_windows};

#[test]
fn numeric_fields_parse_or_fall_back_to_zero() {
    assert_eq!(parse_u32_field("0"), 0);
    assert_eq!(parse_u32_field("42"), 42);
    assert_eq!(parse_u32_field("+42"), 42);
    assert_eq!(parse_u32_field("4294967295"), u32::MAX);
    // Malformed, empty, signed-negative and over-large fields become zero.
    assert_eq!(parse_u32_field(""), 0);
    assert_eq!(parse_u32_field("+"), 0);
    assert_eq!(parse_u32_field("-3"), 0);
    assert_eq!(parse_u32_field("1x"), 0);
    assert_eq!(parse_u32_field("4294967296"), 0);
    assert_eq!(parse_u64_field("18446744073709551615"), u64::MAX);
    assert_eq!(parse_u64_field("18446744073709551616"), 0);
    assert_eq!(parse_u64_field("99999999999999999999999999"), 0);
}

#[test]
fn session_lines_parse_into_records() {
    let output = "work|||$1|||3|||1|||1700000000|||1700000100\n\
                  play|||$2|||1|||0|||1700000200|||1700000300\n";
    let sessions = parse_sessions(output);
    assert_eq!(sessions.len(), 2);
    assert_eq!(sessions[0].name, "work");
    assert_eq!(sessions[0].id, "$1");
    assert_eq!(sessions[0].windows, 3);
    assert!(sessions[0].attached);
    assert_eq!(sessions[0].created, 1_700_000_000);
    assert_eq!(sessions[0].last_activity, 1_700_000_100);
    assert_eq!(sessions[1].name, "play");
    assert!(!sessions[1].attached);
}

#[test]
fn empty_and_short_lines_are_skipped() {
    let output = "\n\nonly|||three|||fields\nok|||$9|||2|||0|||5|||6\n";
    let sessions = parse_sessions(output);
    assert_eq!(sessions.len(), 1);
    assert_eq!(sessions[0].name, "ok");
    assert_eq!(sessions[0].windows, 2);
    assert_eq!(parse_sessions("").len(), 0);
}

#[test]
fn window_lines_parse_into_records() {
    let output = "edit|||1|||@7|||1|||2|||ab12,80x24,0,0,0|||-\r\n";
    let windows = parse_windows(output);
    assert_eq!(windows.len(), 1);
    assert_eq!(windows[0].name, "edit");
    assert_eq!(windows[0].index, 1);
    assert_eq!(windows[0].id, "@7");
    assert!(windows[0].active);
    assert_eq!(windows[0].panes, 2);
    assert_eq!(windows[0].layout, "ab12,80x24,0,0,0");
    assert_eq!(windows[0].flags, "-");
}

#[test]
fn pane_lines_parse_into_records() {
    let output = "%5|||0|||1|||vim|||80|||24|||0|||0|||/home/kim|||4242\n\
                  %6|||1|||0|||zsh|||80|||24|||0|||81|||/tmp|||4243\n";
    let panes = parse_panes(output);
    assert_eq!(panes.len(), 2);
    assert_eq!(panes[0].id, "%5");
    assert_eq!(panes[0].index, 0);
    assert!(panes[0].active);
    assert_eq!(panes[0].command, "vim");
    assert_eq!((panes[0].width, panes[0].height), (80, 24));
    assert_eq!((panes[0].top, panes[0].left), (0, 0));
    assert_eq!(panes[0].cwd, "/home/kim");
    assert_eq!(panes[0].pid, 4242);
    assert_eq!(panes[1].left, 81);
    assert!(!panes[1].active);
}

#[test]
fn fields_may_be_empty_between_separators() {
    // An empty window name and flags still yield a record.
    let output = "|||0|||@1|||0|||1||||||\n";
    let windows = parse_windows(output);
    assert_eq!(windows.len(), 1);
    assert_eq!(windows[0].name, "");
    assert_eq!(windows[0].layout, "");
    assert_eq!(windows[0].flags, "");
}
