use scan_console::{
    handle_key, pad_right, ui, App, Body, Device, DeviceRow, Event, KeyCode, KeyEvent, Message,
    Screen, Span, Suspicion, NO_MODIFIERS, SERIAL_WIDTH,
};

fn plain(code: KeyCode) -> Event {
    Event::Key(KeyEvent { code, modifiers: NO_MODIFIERS })
}

fn span(text: &str, bold: bool) -> Span {
    Span { text: text.to_string(), bold }
}

fn status(state: &str) -> Vec<Span> {
    vec![
        span(state, false),
        span("Press ", false),
        span("ESC", true),
        span(" to exit - ", false),
        span("scanner", false),
        span(" v", false),
        span("1.2.3", false),
    ]
}

fn emulator() -> Device {
    let mut device = Device::new("emulator-5554".to_string());
    device.set_attribute("product".to_string(), "sdk_gphone64".to_string());
    device.set_attribute("model".to_string(), "sdk gphone64 x86 64".to_string());
    device.set_attribute("device".to_string(), "emu64x".to_string());
    device.set_attribute("transport_id".to_string(), "1".to_string());
    device
}

fn finding(text: &str) -> Message {
    Message::Suspicion(Suspicion { text: text.to_string() })
}

#[test]
fn empty_console_shows_an_empty_device_list() {
    let app = App::new();
    assert_eq!(
        ui(&app, "scanner", "1.2.3"),
        Screen {
            status: status("idle - "),
            title: "Connected devices".to_string(),
            body: Body::Devices(Vec::new()),
        }
    );
}

#[test]
fn device_rows_show_serial_and_attributes() {
    let mut app = App::new();
    app.init(Ok(vec![emulator(), Device::new("R58M".to_string())])).unwrap();
    app.key_down();
    let screen = ui(&app, "scanner", "1.2.3");
    assert_eq!(screen.status, status("idle - "));
    assert_eq!(screen.title, "Connected devices");
    assert_eq!(
        screen.body,
        Body::Devices(vec![
            DeviceRow {
                marker: "   ".to_string(),
                text: "emulator-5554                  device=\"emu64x\", model=\"sdk gphone64 x86 64\", product=\"sdk_gphone64\""
                    .to_string(),
                selected: false,
            },
            DeviceRow {
                marker: " > ".to_string(),
                text: "R58M                           device=\"-\", model=\"-\", product=\"-\""
                    .to_string(),
                selected: true,
            },
        ])
    );
}

#[test]
fn attribute_values_are_escaped() {
    let mut device = Device::new("x".to_string());
    device.set_attribute("model".to_string(), "a\"b\\c\n".to_string());
    let mut app = App::new();
    app.init(Ok(vec![device])).unwrap();
    match ui(&app, "scanner", "1.2.3").body {
        Body::Devices(rows) => {
            assert_eq!(rows.len(), 1);
            assert_eq!(
                rows[0].text,
                format!("{:30} device=\"-\", model=\"a\\\"b\\\\c\\n\", product=\"-\"", "x")
            );
            assert!(rows[0].selected);
        }
        other => panic!("unexpected body: {:?}", other),
    }
}

#[test]
fn a_later_value_of_an_attribute_is_the_one_shown() {
    let mut device = Device::new("x".to_string());
    device.set_attribute("model".to_string(), "old".to_string());
    device.set_attribute("device".to_string(), "d".to_string());
    device.set_attribute("model".to_string(), "new".to_string());
    assert_eq!(device.attribute("model"), Some(&"new".to_string()));
    assert_eq!(device.attribute("device"), Some(&"d".to_string()));
    assert_eq!(device.attribute("mode"), None);
    let mut app = App::new();
    app.init(Ok(vec![device])).unwrap();
    match ui(&app, "scanner", "1.2.3").body {
        Body::Devices(rows) => assert_eq!(
            rows[0].text,
            "x                              device=\"d\", model=\"new\", product=\"-\""
        ),
        other => panic!("unexpected body: {:?}", other),
    }
}

#[test]
fn findings_are_shown_while_a_report_exists() {
    let mut app = App::new();
    app.init(Ok(vec![emulator()])).unwrap();
    assert!(matches!(ui(&app, "scanner", "1.2.3").body, Body::Devices(_)));

    handle_key(&mut app, plain(KeyCode::Enter));
    assert_eq!(
        ui(&app, "scanner", "1.2.3"),
        Screen {
            status: status("scanning - "),
            title: "Findings".to_string(),
            body: Body::Findings(Vec::new()),
        }
    );

    app.receive(finding("Suspicion { level: High, description: \"stalkerware\" }"));
    app.receive(finding("second"));
    app.receive(Message::ScanEnded);
    assert_eq!(
        ui(&app, "scanner", "1.2.3"),
        Screen {
            status: status("idle - "),
            title: "Findings".to_string(),
            body: Body::Findings(vec![
                "Suspicion { level: High, description: \"stalkerware\" }".to_string(),
                "second".to_string(),
            ]),
        }
    );

    handle_key(&mut app, plain(KeyCode::Esc));
    assert!(matches!(ui(&app, "scanner", "1.2.3").body, Body::Devices(_)));
}

#[test]
fn laying_out_twice_gives_the_same_screen() {
    let mut app = App::new();
    app.init(Ok(vec![emulator(), Device::new("b".to_string())])).unwrap();
    assert_eq!(ui(&app, "scanner", "1.2.3"), ui(&app, "scanner", "1.2.3"));
    assert_eq!(app.cursor(), 0);
    handle_key(&mut app, plain(KeyCode::Enter));
    app.receive(finding("one"));
    assert_eq!(ui(&app, "scanner", "1.2.3"), ui(&app, "scanner", "1.2.3"));
    assert_eq!(app.report().map(|findings| findings.len()), Some(1));
    assert!(app.is_scanning());
}

#[test]
fn padding_fills_up_to_the_width() {
    assert_eq!(SERIAL_WIDTH, 30);
    assert_eq!(pad_right("abc", 5), "abc  ");
    assert_eq!(pad_right("", 3), "   ");
    assert_eq!(pad_right("abc", 3), "abc");
    assert_eq!(pad_right("abcdef", 3), "abcdef");
    assert_eq!(pad_right("abc", 0), "abc");
    assert_eq!(pad_right("emulator-5554", 30), format!("{:30}", "emulator-5554"));
}

#[test]
fn padding_counts_characters_not_bytes() {
    assert_eq!(pad_right("\u{e9}t\u{e9}", 5), "\u{e9}t\u{e9}  ");
    assert_eq!(pad_right("\u{e9}t\u{e9}", 5), format!("{:5}", "\u{e9}t\u{e9}"));
    assert_eq!(pad_right("\u{4e2d}\u{6587}", 4).chars().count(), 4);
}

#[test]
fn long_serials_are_not_cut() {
    let serial = "0123456789012345678901234567890123456789";
    let mut app = App::new();
    app.init(Ok(vec![Device::new(serial.to_string())])).unwrap();
    match ui(&app, "scanner", "1.2.3").body {
        Body::Devices(rows) => assert_eq!(
            rows[0].text,
            format!("{} device=\"-\", model=\"-\", product=\"-\"", serial)
        ),
        other => panic!("unexpected body: {:?}", other),
    }
}
