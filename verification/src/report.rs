//! The fatal reporter and halt controller: given a displayable diagnostic and
//! a source location, it acquires a fresh handle to each output surface,
//! emits a structured banner, and moves into the terminal halt state. The
//! physical device writes themselves are performed by an unverified rim
//! around this crate; what is verified here is exactly which texts are sent
//! to which surface, in which order, and that the machine ends halted.

use crate::text::{decimal_of, decimal_string, interp, interpolate};
use vstd::prelude::*;

verus! {

/// A physical output surface. A fault report spans both: the banner goes to
/// the primary surface, and the secondary surface receives one empty write
/// as an acknowledgement that it was touched.
#[derive(Clone, Copy, PartialEq, Eq, Structural, Debug)]
pub enum Surface {
    Primary,
    Secondary,
}

/// One text write sent to a surface.
#[derive(Debug)]
pub struct DeviceWrite {
    pub surface: Surface,
    pub text: String,
}

impl View for DeviceWrite {
    type V = (Surface, Seq<char>);

    open spec fn view(&self) -> (Surface, Seq<char>) {
        (self.surface, self.text@)
    }
}

/// A short-lived, exclusively owned handle to one output surface, acquired
/// fresh at report time and never cached or reused across reports.
pub struct Device {
    pub surface: Surface,
}

impl Device {
    /// Acquires a fresh handle bound to the given surface. Acquisition is
    /// unconditional: a surface that cannot be acquired is itself an
    /// unrecoverable condition with no fallback.
    pub fn acquire(surface: Surface) -> (d: Device)
        ensures
            d.surface == surface,
    {
        Device { surface }
    }
}

/// The reporting path's phase: a fault moves the machine from `Running`
/// through `Reporting` to `Halted`, and no transition leads back.
#[derive(Clone, Copy, PartialEq, Eq, Structural, Debug)]
pub enum Phase {
    Running,
    Reporting,
    Halted,
}

/// The fatal reporter: its phase together with the ordered log of every
/// write sent to the output surfaces.
#[derive(Debug)]
pub struct Reporter {
    pub phase: Phase,
    pub log: Vec<DeviceWrite>,
}

impl Reporter {
    /// The emitted writes as (surface, text) pairs, in emission order.
    pub open spec fn log_view(self) -> Seq<(Surface, Seq<char>)> {
        self.log@.map_values(|w: DeviceWrite| w@)
    }

    /// A machine that has not yet seen a fault: running, nothing written.
    pub fn new() -> (r: Reporter)
        ensures
            r.phase == Phase::Running,
            r.log_view() == Seq::<(Surface, Seq<char>)>::empty(),
    {
        let r = Reporter { phase: Phase::Running, log: Vec::new() };
        proof {
            assert(r.log_view() =~= Seq::<(Surface, Seq<char>)>::empty());
        }
        r
    }

    /// `Running -> Reporting`: fires when a detected fault enters the
    /// reporting path.
    pub fn start_report(&mut self)
        requires
            old(self).phase == Phase::Running,
        ensures
            final(self).phase == Phase::Reporting,
            final(self).log_view() == old(self).log_view(),
    {
        self.phase = Phase::Reporting;
    }

    /// Sends one text write to the given device's surface. A failure of the
    /// physical write is discarded by design — there is no second fault
    /// path — so the log records the attempt unconditionally.
    pub fn emit(&mut self, device: &Device, text: String)
        requires
            old(self).phase == Phase::Reporting,
        ensures
            final(self).phase == Phase::Reporting,
            final(self).log_view() == old(self).log_view().push((device.surface, text@)),
    {
        let ghost before = self.log_view();
        let ghost entry = (device.surface, text@);
        self.log.push(DeviceWrite { surface: device.surface, text });
        proof {
            assert(self.log_view() =~= before.push(entry));
        }
    }

    /// `Reporting -> Halted`: unconditional and irreversible.
    pub fn halt(&mut self)
        requires
            old(self).phase == Phase::Reporting,
        ensures
            final(self).phase == Phase::Halted,
            final(self).log_view() == old(self).log_view(),
    {
        self.phase = Phase::Halted;
    }

    /// One scheduling tick taken in the halt state: nothing is emitted and
    /// the machine does not change.
    pub fn tick(&mut self) -> (emitted: Option<DeviceWrite>)
        requires
            old(self).phase == Phase::Halted,
        ensures
            *final(self) == *old(self),
            *final(self) == spec_tick(*old(self)),
            emitted is None,
    {
        None
    }
}

/// One spec-level scheduling tick of the machine: while running nothing
/// observable happens, a machine caught mid-report falls to `Halted`
/// unconditionally, and a halted machine never changes.
pub open spec fn spec_tick(r: Reporter) -> Reporter {
    match r.phase {
        Phase::Running => r,
        Phase::Reporting => Reporter { phase: Phase::Halted, log: r.log },
        Phase::Halted => r,
    }
}

/// The machine after n scheduling ticks.
pub open spec fn after_ticks(r: Reporter, n: nat) -> Reporter
    decreases n,
{
    if n == 0 {
        r
    } else {
        spec_tick(after_ticks(r, (n - 1) as nat))
    }
}

/// Law: halting is final. Once the machine is halted, arbitrarily many
/// further scheduling ticks leave it exactly as it is — in particular, no
/// further write is ever logged.
pub proof fn lemma_halt_is_terminal(r: Reporter, n: nat)
    requires
        r.phase == Phase::Halted,
    ensures
        after_ticks(r, n) == r,
    decreases n,
{
    if n > 0 {
        lemma_halt_is_terminal(r, (n - 1) as nat);
    }
}

/// The fixed-width separator line that opens and closes the banner.
pub open spec fn separator() -> Seq<char> {
    "--------------------------------------------------"@
}

/// The banner header naming the source file and line of the fault; ends
/// with a line break.
pub open spec fn header_text(file: Seq<char>, line: nat) -> Seq<char> {
    "PANIC in "@ + file + " at line "@ + decimal_of(line) + ":\n"@
}

/// The indented diagnostic body; ends with a line break.
pub open spec fn body_text(msg: Seq<char>) -> Seq<char> {
    "    "@ + msg + "\n"@
}

/// The closing separator, preceded by a cursor-positioning control sequence
/// that anchors it to a fixed row, so the visible report is bounded to a
/// known screen region however long the diagnostic ran.
pub open spec fn closing_text() -> Seq<char> {
    "\x1b[29;00H"@ + separator()
}

/// The full report: four writes to the primary surface — separator, header,
/// body, anchored closing separator — then one empty write to the secondary
/// surface.
pub open spec fn banner(file: Seq<char>, line: nat, msg: Seq<char>) -> Seq<(Surface, Seq<char>)> {
    seq![
        (Surface::Primary, separator()),
        (Surface::Primary, header_text(file, line)),
        (Surface::Primary, body_text(msg)),
        (Surface::Primary, closing_text()),
        (Surface::Secondary, Seq::<char>::empty()),
    ]
}

/// Renders the banner header for a fault at the given file and line.
fn render_header(file: &str, line: u32) -> (r: String)
    ensures
        r@ == header_text(file@, line as nat),
{
    let mut r = String::from_str("PANIC in ");
    r.append(file);
    r.append(" at line ");
    let digits = decimal_string(line);
    r.append(digits.as_str());
    r.append(":\n");
    proof {
        assert(r@ =~= header_text(file@, line as nat));
    }
    r
}

/// Renders the indented diagnostic body line.
fn render_body(msg: &str) -> (r: String)
    ensures
        r@ == body_text(msg@),
{
    let mut r = String::from_str("    ");
    r.append(msg);
    r.append("\n");
    proof {
        assert(r@ =~= body_text(msg@));
    }
    r
}

/// Renders the anchored closing separator.
fn render_closing() -> (r: String)
    ensures
        r@ == closing_text(),
{
    let mut r = String::from_str("\x1b[29;00H");
    r.append("--------------------------------------------------");
    proof {
        assert(r@ =~= closing_text());
    }
    r
}

/// A fault diagnostic: an owned value that can render itself as text.
/// `render` consumes the value, so the diagnostic is detached from the
/// faulting frame before it crosses into the reporting path — that frame's
/// validity is no longer guaranteed once a fault is detected.
pub trait Displayable: Sized {
    /// The text this payload renders as.
    spec fn rendered(&self) -> Seq<char>;

    /// Produces the owned textual rendering.
    fn render(self) -> (r: String)
        ensures
            r@ == self.rendered(),
    ;
}

impl Displayable for String {
    open spec fn rendered(&self) -> Seq<char> {
        self@
    }

    fn render(self) -> (r: String) {
        self
    }
}

impl<'a> Displayable for &'a str {
    open spec fn rendered(&self) -> Seq<char> {
        (*self)@
    }

    fn render(self) -> (r: String) {
        String::from_str(self)
    }
}

impl Displayable for u32 {
    open spec fn rendered(&self) -> Seq<char> {
        decimal_of(*self as nat)
    }

    fn render(self) -> (r: String) {
        decimal_string(self)
    }
}

/// The generic entry point of the fatal path: reports any displayable
/// diagnostic together with its source location, then halts.
///
/// The returned machine is in its terminal `Halted` phase — the fatal path
/// never hands control back to the faulting code — and its log is exactly
/// the banner: the primary surface is written in full before the secondary
/// surface is touched.
pub fn begin_panic<M: Displayable>(msg: M, file_line: &(&'static str, u32)) -> (r: Reporter)
    ensures
        r.phase == Phase::Halted,
        r.log_view() == banner(file_line.0@, file_line.1 as nat, msg.rendered()),
{
    let diagnostic: String = msg.render();
    let file: &str = file_line.0;
    let line: u32 = file_line.1;
    let mut reporter = Reporter::new();
    reporter.start_report();
    let primary = Device::acquire(Surface::Primary);
    let secondary = Device::acquire(Surface::Secondary);
    reporter.emit(&primary, String::from_str("--------------------------------------------------"));
    reporter.emit(&primary, render_header(file, line));
    reporter.emit(&primary, render_body(diagnostic.as_str()));
    reporter.emit(&primary, render_closing());
    reporter.emit(&secondary, String::new());
    reporter.halt();
    proof {
        assert(reporter.log_view() =~= banner(file_line.0@, file_line.1 as nat, msg.rendered()));
    }
    reporter
}

/// The formatted entry point of the fatal path: materializes the diagnostic
/// from a format template and pre-rendered arguments, then reports it and
/// halts, exactly as the generic entry point does.
pub fn begin_panic_fmt(template: &str, args: &Vec<String>, file_line: &(&'static str, u32)) -> (r:
    Reporter)
    ensures
        r.phase == Phase::Halted,
        r.log_view() == banner(
            file_line.0@,
            file_line.1 as nat,
            interp(template@, args.deep_view()),
        ),
{
    let message = interpolate(template, args);
    begin_panic(message, file_line)
}

} // verus!
