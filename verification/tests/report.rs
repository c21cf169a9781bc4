use fatal_report::report::{begin_panic, begin_panic_fmt, Phase, Reporter, Surface};

const SEPARATOR: &str = "--------------------------------------------------";

fn primary_content(r: &Reporter) -> String {
    let mut s = String::new();
    for w in &r.log {
        if w.surface == Surface::Primary {
            s.push_str(&w.text);
        }
    }
    s
}

#[test]
fn generic_entry_four_part_banner() {
    let r = begin_panic(String::from("assertion failed"), &("kernel.rs", 42));
    assert_eq!(r.phase, Phase::Halted);
    assert_eq!(r.log.len(), 5);
    assert_eq!(r.log[0].surface, Surface::Primary);
    assert_eq!(r.log[0].text, SEPARATOR);
    assert_eq!(r.log[1].surface, Surface::Primary);
    assert_eq!(r.log[1].text, "PANIC in kernel.rs at line 42:\n");
    assert_eq!(r.log[2].surface, Surface::Primary);
    assert_eq!(r.log[2].text, "    assertion failed\n");
    assert_eq!(r.log[3].surface, Surface::Primary);
    assert_eq!(r.log[3].text, format!("\x1b[29;00H{}", SEPARATOR));
    assert_eq!(r.log[4].surface, Surface::Secondary);
    assert_eq!(r.log[4].text, "");
}

#[test]
fn generic_entry_str_payload() {
    let r = begin_panic("assertion failed", &("kernel.rs", 42));
    assert_eq!(r.log[2].text, "    assertion failed\n");
}

#[test]
fn generic_entry_numeric_payload() {
    let r = begin_panic(7u32, &("main.rs", 9));
    assert_eq!(r.log[2].text, "    7\n");
    assert_eq!(r.log[1].text, "PANIC in main.rs at line 9:\n");
}

#[test]
fn payload_is_substring_of_primary_content() {
    let r = begin_panic(String::from("unexpected state"), &("sched.rs", 7));
    let content = primary_content(&r);
    assert!(content.contains("unexpected state"));
    assert!(content.contains("sched.rs"));
    assert!(content.contains("7"));
}

#[test]
fn formatted_entry_renders_template() {
    let args = vec![String::from("7")];
    let r = begin_panic_fmt("value = {}", &args, &("main.rs", 1));
    assert_eq!(r.phase, Phase::Halted);
    assert_eq!(r.log[2].text, "    value = 7\n");
}

#[test]
fn formatted_entry_empty_template() {
    let args: Vec<String> = vec![];
    let r = begin_panic_fmt("", &args, &("boot.rs", 3));
    assert_eq!(r.log.len(), 5);
    assert_eq!(r.log[0].text, SEPARATOR);
    assert_eq!(r.log[1].text, "PANIC in boot.rs at line 3:\n");
    assert_eq!(r.log[2].text, "    \n");
    assert_eq!(r.log[4].surface, Surface::Secondary);
}

#[test]
fn primary_writes_precede_secondary_writes() {
    let r = begin_panic(String::from("fault"), &("a.rs", 1));
    let last_primary = r
        .log
        .iter()
        .enumerate()
        .filter(|(_, w)| w.surface == Surface::Primary)
        .map(|(i, _)| i)
        .max()
        .unwrap();
    let first_secondary = r
        .log
        .iter()
        .enumerate()
        .filter(|(_, w)| w.surface == Surface::Secondary)
        .map(|(i, _)| i)
        .min()
        .unwrap();
    assert!(last_primary < first_secondary);
}

#[test]
fn halted_machine_never_changes() {
    let mut r = begin_panic(String::from("fault"), &("a.rs", 1));
    let phase_before = r.phase;
    let texts_before: Vec<String> = r.log.iter().map(|w| w.text.clone()).collect();
    for _ in 0..100 {
        let emitted = r.tick();
        assert!(emitted.is_none());
    }
    assert_eq!(r.phase, phase_before);
    let texts_after: Vec<String> = r.log.iter().map(|w| w.text.clone()).collect();
    assert_eq!(texts_after, texts_before);
}

#[test]
fn machine_phases_in_order() {
    let mut r = Reporter::new();
    assert_eq!(r.phase, Phase::Running);
    assert_eq!(r.log.len(), 0);
    r.start_report();
    assert_eq!(r.phase, Phase::Reporting);
    r.halt();
    assert_eq!(r.phase, Phase::Halted);
    assert_eq!(r.log.len(), 0);
}
