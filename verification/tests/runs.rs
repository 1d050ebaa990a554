use scan_console::{
    step, Action, App, Arrival, Device, Event, KeyCode, KeyEvent, Message, Suspicion, CONTROL,
    NO_MODIFIERS, SHIFT,
};

const KINDS: usize = 13;

fn key(code: KeyCode, modifiers: u8) -> Arrival {
    Arrival::Input(Event::Key(KeyEvent { code, modifiers }))
}

fn listing(count: usize) -> Arrival {
    Arrival::Listing(Ok((0..count).map(|i| Device::new(format!("device-{}", i))).collect()))
}

fn arrival(kind: usize, tick: usize) -> Arrival {
    match kind {
        0 => key(KeyCode::Up, NO_MODIFIERS),
        1 => key(KeyCode::Down, NO_MODIFIERS),
        2 => key(KeyCode::Enter, NO_MODIFIERS),
        3 => key(KeyCode::Esc, NO_MODIFIERS),
        4 => key(KeyCode::Char('q'), NO_MODIFIERS),
        5 => key(KeyCode::Char('r'), CONTROL),
        6 => key(KeyCode::Char('Q'), SHIFT),
        7 => listing(0),
        8 => listing(1),
        9 => listing(3),
        10 => Arrival::Message(Message::Suspicion(Suspicion { text: format!("finding-{}", tick) })),
        11 => Arrival::Message(Message::ScanEnded),
        _ => Arrival::StartFailed,
    }
}

fn check_run(kinds: &[usize]) {
    let mut app = App::new();
    let mut sessions = 0;
    let mut expected: Option<Vec<String>> = None;
    for (tick, kind) in kinds.iter().enumerate() {
        let was_scanning = app.is_scanning();
        let outcome = step(&mut app, arrival(*kind, tick));

        if app.devices().is_empty() {
            assert_eq!(app.cursor(), 0);
            assert!(app.selected().is_none());
        } else {
            assert!(app.cursor() < app.devices().len());
            assert!(app.selected().is_some());
        }

        if let Ok(Some(Action::StartScan(_))) = outcome {
            assert!(!was_scanning);
            assert!(app.is_scanning());
            sessions += 1;
            expected = Some(Vec::new());
        }
        if !app.is_scanning() {
            sessions = 0;
        }
        assert!(sessions <= 1);
        assert_eq!(app.is_scanning(), sessions == 1);
        if app.is_scanning() {
            assert!(app.report().is_some());
        }

        if *kind == 10 {
            if let Some(lines) = expected.as_mut() {
                lines.push(format!("finding-{}", tick));
            }
        }
        if app.report().is_none() {
            expected = None;
        }
        let shown: Option<Vec<String>> = app
            .report()
            .map(|findings| findings.iter().map(|finding| finding.text.clone()).collect());
        assert_eq!(shown, expected);
    }
}

fn all_runs(length: usize) {
    let mut kinds = vec![0; length];
    loop {
        check_run(&kinds);
        let mut place = 0;
        while place < length && kinds[place] == KINDS - 1 {
            kinds[place] = 0;
            place += 1;
        }
        if place == length {
            break;
        }
        kinds[place] += 1;
    }
}

#[test]
fn every_short_run_keeps_the_cursor_the_session_and_the_report_in_order() {
    for length in 1..=4 {
        all_runs(length);
    }
}

#[test]
fn a_long_run_of_findings_arrives_whole() {
    let mut app = App::new();
    assert_eq!(step(&mut app, listing(2)), Ok(None));
    assert!(matches!(
        step(&mut app, key(KeyCode::Enter, NO_MODIFIERS)),
        Ok(Some(Action::StartScan(_)))
    ));
    for tick in 0..1000 {
        assert_eq!(step(&mut app, arrival(10, tick)), Ok(None));
    }
    assert_eq!(step(&mut app, Arrival::Message(Message::ScanEnded)), Ok(None));
    let findings = app.report().unwrap();
    assert_eq!(findings.len(), 1000);
    for (tick, finding) in findings.iter().enumerate() {
        assert_eq!(finding.text, format!("finding-{}", tick));
    }
    assert!(!app.is_scanning());
}
