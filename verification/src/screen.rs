//! What the screen shows for a state of the console.
//!
//! [`ui`] lays the screen out as plain values: the spans of the status
//! line, and below a divider either the device list or the findings. How
//! these are drawn, in which colours and into which cells, is left to the
//! caller.

use crate::app::{device_views, finding_lines, App, AppView};
use crate::device::{Device, DeviceView};
use crate::message::Suspicion;
use crate::text::{debug_text, pad_right, padded, quoted};
use vstd::prelude::*;
use vstd::string::*;

verus! {

/// The width to which the serial of a device is padded in its row.
pub const SERIAL_WIDTH: usize = 30;

/// A stretch of the status line.
#[derive(Debug, PartialEq, Eq)]
pub struct Span {
    pub text: String,
    /// Whether the stretch is set off from the rest.
    pub bold: bool,
}

/// The row of one device in the device list.
#[derive(Debug, PartialEq, Eq)]
pub struct DeviceRow {
    /// What stands in front of the row: an arrow on the selected row,
    /// blanks of the same width on the others.
    pub marker: String,
    pub text: String,
    /// Whether the cursor is on this row.
    pub selected: bool,
}

/// What fills the screen below the status line.
#[derive(Debug, PartialEq, Eq)]
pub enum Body {
    /// The device list, one row for each device.
    Devices(Vec<DeviceRow>),
    /// The report, one line for each finding.
    Findings(Vec<String>),
}

/// The screen: a status line, and under a divider a titled body.
#[derive(Debug, PartialEq, Eq)]
pub struct Screen {
    pub status: Vec<Span>,
    pub title: String,
    pub body: Body,
}

pub struct SpanView {
    pub text: Seq<char>,
    pub bold: bool,
}

pub struct DeviceRowView {
    pub marker: Seq<char>,
    pub text: Seq<char>,
    pub selected: bool,
}

pub enum BodyView {
    Devices(Seq<DeviceRowView>),
    Findings(Seq<Seq<char>>),
}

pub struct ScreenView {
    pub status: Seq<SpanView>,
    pub title: Seq<char>,
    pub body: BodyView,
}

impl View for Span {
    type V = SpanView;

    open spec fn view(&self) -> SpanView {
        SpanView { text: self.text@, bold: self.bold }
    }
}

impl View for DeviceRow {
    type V = DeviceRowView;

    open spec fn view(&self) -> DeviceRowView {
        DeviceRowView { marker: self.marker@, text: self.text@, selected: self.selected }
    }
}

impl View for Body {
    type V = BodyView;

    open spec fn view(&self) -> BodyView {
        match self {
            Body::Devices(rows) => BodyView::Devices(rows@.map_values(|row: DeviceRow| row@)),
            Body::Findings(lines) => BodyView::Findings(lines@.map_values(|line: String| line@)),
        }
    }
}

impl View for Screen {
    type V = ScreenView;

    open spec fn view(&self) -> ScreenView {
        ScreenView {
            status: self.status@.map_values(|span: Span| span@),
            title: self.title@,
            body: self.body@,
        }
    }
}

/// A stretch of the status line that is not set off.
pub open spec fn plain(text: Seq<char>) -> SpanView {
    SpanView { text, bold: false }
}

/// The status line: whether a scan is running, how to leave, and the name
/// and version of the product.
pub open spec fn status_spans(scanning: bool, product: Seq<char>, version: Seq<char>) -> Seq<
    SpanView,
> {
    seq![
        plain(if scanning { "scanning - "@ } else { "idle - "@ }),
        plain("Press "@),
        SpanView { text: "ESC"@, bold: true },
        plain(" to exit - "@),
        plain(product),
        plain(" v"@),
        plain(version),
    ]
}

/// The value of an attribute as the device list shows it: a dash stands
/// for an attribute that the device does not have.
pub open spec fn shown(info: Map<Seq<char>, Seq<char>>, name: Seq<char>) -> Seq<char> {
    if info.contains_key(name) {
        info[name]
    } else {
        "-"@
    }
}

/// The text of the row of a device: its serial, padded to
/// [`SERIAL_WIDTH`], then the attributes `device`, `model` and `product`,
/// each in its debug form.
pub open spec fn device_line(device: DeviceView) -> Seq<char> {
    padded(device.serial, SERIAL_WIDTH as nat) + " device="@ + debug_text(
        shown(device.info, "device"@),
    ) + ", model="@ + debug_text(shown(device.info, "model"@)) + ", product="@ + debug_text(
        shown(device.info, "product"@),
    )
}

/// The row of a device.
pub open spec fn device_row(device: DeviceView, selected: bool) -> DeviceRowView {
    DeviceRowView {
        marker: if selected {
            " > "@
        } else {
            "   "@
        },
        text: device_line(device),
        selected,
    }
}

/// The rows of the device list: one for each device, in order, the one
/// under the cursor selected.
pub open spec fn device_rows(devices: Seq<DeviceView>, cursor: nat) -> Seq<DeviceRowView> {
    Seq::new(devices.len(), |i: int| device_row(devices[i], i == cursor))
}

/// The screen for a state. While a report exists the findings are shown,
/// whether or not a scan is still running; otherwise the device list is.
pub open spec fn screen_of(app: AppView, product: Seq<char>, version: Seq<char>) -> ScreenView {
    match app.report {
        Some(lines) => ScreenView {
            status: status_spans(app.scanning, product, version),
            title: "Findings"@,
            body: BodyView::Findings(lines),
        },
        None => ScreenView {
            status: status_spans(app.scanning, product, version),
            title: "Connected devices"@,
            body: BodyView::Devices(device_rows(app.devices, app.cursor)),
        },
    }
}

/// Lays out the screen for the current state. The state is not touched,
/// and the screen depends on nothing but the state and the two names, so
/// laying it out again gives the same screen.
pub fn ui(app: &App, product: &str, version: &str) -> (screen: Screen)
    ensures
        screen@ == screen_of(app@, product@, version@),
        screen.body is Findings <==> app@.report is Some,
{
    let status = status_line(app.is_scanning(), product, version);
    match app.report() {
        Some(findings) => Screen {
            status,
            title: String::from_str("Findings"),
            body: Body::Findings(finding_rows(findings)),
        },
        None => Screen {
            status,
            title: String::from_str("Connected devices"),
            body: Body::Devices(list_rows(app.devices(), app.cursor())),
        },
    }
}

fn span(text: &str, bold: bool) -> (span: Span)
    ensures
        span@ == (SpanView { text: text@, bold }),
{
    Span { text: String::from_str(text), bold }
}

fn status_line(scanning: bool, product: &str, version: &str) -> (spans: Vec<Span>)
    ensures
        spans@.map_values(|span: Span| span@) == status_spans(scanning, product@, version@),
{
    let mut spans: Vec<Span> = Vec::new();
    spans.push(
        span(
            if scanning {
                "scanning - "
            } else {
                "idle - "
            },
            false,
        ),
    );
    spans.push(span("Press ", false));
    spans.push(span("ESC", true));
    spans.push(span(" to exit - ", false));
    spans.push(span(product, false));
    spans.push(span(" v", false));
    spans.push(span(version, false));
    assert(spans@.map_values(|span: Span| span@) =~= status_spans(scanning, product@, version@));
    spans
}

fn finding_rows(findings: &Vec<Suspicion>) -> (lines: Vec<String>)
    ensures
        lines@.map_values(|line: String| line@) == finding_lines(findings@),
{
    let mut lines: Vec<String> = Vec::new();
    let mut i: usize = 0;
    while i < findings.len()
        invariant
            i <= findings.len(),
            lines@.len() == i,
            forall|j: int| 0 <= j < i ==> lines@[j]@ == findings@[j]@,
        decreases findings.len() - i,
    {
        lines.push(findings[i].text.clone());
        i = i + 1;
    }
    assert(lines@.map_values(|line: String| line@) =~= finding_lines(findings@));
    lines
}

fn list_rows(devices: &Vec<Device>, cursor: usize) -> (rows: Vec<DeviceRow>)
    ensures
        rows@.map_values(|row: DeviceRow| row@) == device_rows(
            device_views(devices@),
            cursor as nat,
        ),
{
    let mut rows: Vec<DeviceRow> = Vec::new();
    let mut i: usize = 0;
    while i < devices.len()
        invariant
            i <= devices.len(),
            rows@.len() == i,
            forall|j: int| 0 <= j < i ==> rows@[j]@ == device_row(devices@[j]@, j == cursor),
        decreases devices.len() - i,
    {
        let selected = i == cursor;
        let marker = if selected {
            " > "
        } else {
            "   "
        };
        rows.push(
            DeviceRow {
                marker: String::from_str(marker),
                text: row_text(&devices[i]),
                selected,
            },
        );
        i = i + 1;
    }
    assert(rows@.map_values(|row: DeviceRow| row@) =~= device_rows(
        device_views(devices@),
        cursor as nat,
    ));
    rows
}

fn row_text(device: &Device) -> (line: String)
    ensures
        line@ == device_line(device@),
{
    let mut line = pad_right(device.serial().as_str(), SERIAL_WIDTH);
    line.append(" device=");
    line.append(quoted(or_dash(device.attribute("device"))).as_str());
    line.append(", model=");
    line.append(quoted(or_dash(device.attribute("model"))).as_str());
    line.append(", product=");
    line.append(quoted(or_dash(device.attribute("product"))).as_str());
    line
}

fn or_dash<'a>(value: Option<&'a String>) -> (text: &'a str)
    ensures
        text@ == match value {
            Some(value) => value@,
            None => "-"@,
        },
{
    match value {
        Some(value) => value.as_str(),
        None => "-",
    }
}

} // verus!
