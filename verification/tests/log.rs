use dke_sim::rlog::RLog;

#[test]
fn counter_string_pads_to_four_digits() {
    let mut log = RLog::new();
    assert_eq!(log.create_counter_string(), "[0000] ");
    for _ in 0..10 {
        log.rLogMsg("x");
    }
    assert_eq!(log.create_counter_string(), "[0010] ");
    for _ in 0..990 {
        log.rLogMsg("x");
    }
    assert_eq!(log.create_counter_string(), "[1000] ");
}

#[test]
fn message_lines_are_numbered_and_tagged() {
    let mut log = RLog::new();
    assert_eq!(log.rLogMsg("hello"), "[0000] [MSG] hello");
    assert_eq!(log.rLogMsg("again"), "[0001] [MSG] again");
    assert_eq!(log.rLogWrn("careful"), "[0002] [WRN] careful");
    assert_eq!(log.rLogErr("broken"), "[0003] [ERR] !! broken");
}

#[test]
fn debug_lines_only_when_enabled() {
    let mut log = RLog::new();
    assert_eq!(log.rLogDbg("quiet"), None);
    log.set_enable_debug_messages(&true);
    assert_eq!(log.rLogDbg("loud"), Some("[0000] [DBG] loud".to_string()));
    log.set_enable_debug_messages(&false);
    assert_eq!(log.rLogDbg("quiet again"), None);
}

#[test]
fn close_summarises_counts() {
    let mut log = RLog::new();
    log.rLogMsg("one");
    log.rLogWrn("two");
    log.rLogWrn("three");
    let lines = log.close();
    assert_eq!(
        lines,
        vec![
            "    MSG: 1".to_string(),
            "[!] WRN: 2 <----- !".to_string(),
            "[x] ERR: 0".to_string(),
            "    DBG: 0".to_string(),
        ]
    );
}

#[test]
fn close_flags_errors() {
    let mut log = RLog::new();
    log.rLogErr("bad");
    let lines = log.close();
    assert_eq!(lines[1], "[x] WRN: 0");
    assert_eq!(lines[2], "[!] ERR: 1 <------ !!!");
}
