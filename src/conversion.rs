//! The decisions of one conversion, as a state machine.
//!
//! A driver outside the library performs each [`Action`] (reading the input,
//! calling the document engine, writing the output) and hands back what came
//! of it as an [`Event`]; [`Conversion::step`] then decides the next action,
//! until one of them is [`Action::Finish`].
use vstd::prelude::*;
use crate::export::{
    ConvertError, ConvertErrorView, ExportFormat, export_title, format_for, format_named,
    select_format, text_of, title_for,
};

verus! {

/// Where a conversion stands: what it waits for the outcome of.
#[derive(Clone, Copy, Debug, PartialEq, Eq, Structural)]
pub enum Phase {
    /// The input file is being read.
    Reading,
    /// The engine is opening the document read from the input.
    Opening,
    /// The engine is encoding the document.
    Exporting,
    /// The encoded document is being written to the output file.
    Writing,
    /// The conversion has ended.
    Finished,
}

/// What came of the last action.
#[derive(Clone, Debug, PartialEq, Eq)]
pub enum Event {
    /// The input file was read whole.
    InputRead(Vec<u8>),
    /// Reading the input failed, with this message.
    InputFailed(String),
    /// The engine took the document in.
    DocumentOpened,
    /// The engine refused the document, with this message.
    DocumentRejected(String),
    /// The engine encoded the document into these bytes.
    Exported(Vec<u8>),
    /// The engine failed to encode the document, with this message.
    ExportFailed(String),
    /// The output file was written.
    OutputWritten,
    /// Writing the output failed, with this message.
    OutputFailed(String),
}

/// What is to be done next.
#[derive(Debug, PartialEq, Eq)]
pub enum Action {
    /// Read the whole input file.
    ReadInput,
    /// Have the engine open the document held in these bytes.
    OpenDocument(Vec<u8>),
    /// Have the engine encode the open document in a format, under a title.
    Export { format: ExportFormat, title: String },
    /// Create the output file and write these bytes to it.
    WriteOutput(Vec<u8>),
    /// Stop: the conversion ended with this outcome.
    Finish(Result<(), ConvertError>),
}

/// The model of an [`Event`].
pub enum EventView {
    InputRead(Seq<u8>),
    InputFailed(Seq<char>),
    DocumentOpened,
    DocumentRejected(Seq<char>),
    Exported(Seq<u8>),
    ExportFailed(Seq<char>),
    OutputWritten,
    OutputFailed(Seq<char>),
}

/// The model of an [`Action`].
pub enum ActionView {
    ReadInput,
    OpenDocument(Seq<u8>),
    Export { format: ExportFormat, title: Seq<char> },
    WriteOutput(Seq<u8>),
    Finish(Result<(), ConvertErrorView>),
}

impl View for Event {
    type V = EventView;

    open spec fn view(&self) -> EventView {
        match self {
            Event::InputRead(b) => EventView::InputRead(b@),
            Event::InputFailed(m) => EventView::InputFailed(m@),
            Event::DocumentOpened => EventView::DocumentOpened,
            Event::DocumentRejected(m) => EventView::DocumentRejected(m@),
            Event::Exported(b) => EventView::Exported(b@),
            Event::ExportFailed(m) => EventView::ExportFailed(m@),
            Event::OutputWritten => EventView::OutputWritten,
            Event::OutputFailed(m) => EventView::OutputFailed(m@),
        }
    }
}

impl View for Action {
    type V = ActionView;

    open spec fn view(&self) -> ActionView {
        match self {
            Action::ReadInput => ActionView::ReadInput,
            Action::OpenDocument(b) => ActionView::OpenDocument(b@),
            Action::Export { format, title } => ActionView::Export {
                format: *format,
                title: title@,
            },
            Action::WriteOutput(b) => ActionView::WriteOutput(b@),
            Action::Finish(Ok(())) => ActionView::Finish(Ok(())),
            Action::Finish(Err(e)) => ActionView::Finish(Err(e@)),
        }
    }
}

/// One conversion of an input file into an output file.
pub struct Conversion {
    phase: Phase,
    extension: Option<String>,
    title: String,
}

/// The model of a [`Conversion`]: its phase, the output file's extension and
/// the title of the export.
pub struct ConversionView {
    pub phase: Phase,
    pub extension: Option<Seq<char>>,
    pub title: Seq<char>,
}

impl View for Conversion {
    type V = ConversionView;

    closed spec fn view(&self) -> ConversionView {
        ConversionView {
            phase: self.phase,
            extension: text_of(self.extension),
            title: self.title@,
        }
    }
}

/// A conversion to an output file with the given extension and stem, before
/// anything has been done.
pub open spec fn initial(extension: Option<Seq<char>>, stem: Option<Seq<char>>) -> ConversionView {
    ConversionView { phase: Phase::Reading, extension, title: title_for(stem) }
}

/// Whether an event is an outcome of what a conversion in this phase waits for.
pub open spec fn accepts(phase: Phase, e: EventView) -> bool {
    match phase {
        Phase::Reading => e is InputRead || e is InputFailed,
        Phase::Opening => e is DocumentOpened || e is DocumentRejected,
        Phase::Exporting => e is Exported || e is ExportFailed,
        Phase::Writing => e is OutputWritten || e is OutputFailed,
        Phase::Finished => false,
    }
}

/// The conversion ended with an outcome.
pub open spec fn finished(c: ConversionView, outcome: Result<(), ConvertErrorView>) -> (
    ConversionView,
    ActionView,
) {
    (ConversionView { phase: Phase::Finished, ..c }, ActionView::Finish(outcome))
}

/// The state a conversion moves to on an event it accepts, and the action it
/// asks for next. Every failure ends the conversion at once; the output
/// format is decided once the document is open.
pub open spec fn next(c: ConversionView, e: EventView) -> (ConversionView, ActionView) {
    match e {
        EventView::InputRead(bytes) => (
            ConversionView { phase: Phase::Opening, ..c },
            ActionView::OpenDocument(bytes),
        ),
        EventView::InputFailed(m) => finished(c, Err(ConvertErrorView::InputUnreadable(m))),
        EventView::DocumentOpened => match format_for(c.extension) {
            Ok(format) => (
                ConversionView { phase: Phase::Exporting, ..c },
                ActionView::Export { format, title: c.title },
            ),
            Err(err) => finished(c, Err(err)),
        },
        EventView::DocumentRejected(m) => finished(c, Err(ConvertErrorView::DocumentRejected(m))),
        EventView::Exported(bytes) => (
            ConversionView { phase: Phase::Writing, ..c },
            ActionView::WriteOutput(bytes),
        ),
        EventView::ExportFailed(m) => finished(c, Err(ConvertErrorView::ExportFailed(m))),
        EventView::OutputWritten => finished(c, Ok(())),
        EventView::OutputFailed(m) => finished(c, Err(ConvertErrorView::OutputUnwritable(m))),
    }
}

impl Conversion {
    /// Starts a conversion to an output file with the given extension and
    /// stem; the first action is to read the input.
    pub fn new(extension: Option<String>, stem: Option<String>) -> (r: (Conversion, Action))
        ensures
            r.0@ == initial(text_of(extension), text_of(stem)),
            r.1@ == ActionView::ReadInput,
    {
        let title = export_title(stem);
        (Conversion { phase: Phase::Reading, extension, title }, Action::ReadInput)
    }

    /// Where the conversion stands.
    pub fn phase(&self) -> (r: Phase)
        ensures
            r == self@.phase,
    {
        self.phase
    }

    /// Whether the conversion has ended.
    pub fn is_finished(&self) -> (r: bool)
        ensures
            r == (self@.phase == Phase::Finished),
    {
        self.phase == Phase::Finished
    }

    /// Whether `event` is an outcome of what the conversion waits for.
    pub fn accepts(&self, event: &Event) -> (r: bool)
        ensures
            r == accepts(self@.phase, event@),
    {
        match self.phase {
            Phase::Reading => matches!(event, Event::InputRead(_) | Event::InputFailed(_)),
            Phase::Opening => matches!(event, Event::DocumentOpened | Event::DocumentRejected(_)),
            Phase::Exporting => matches!(event, Event::Exported(_) | Event::ExportFailed(_)),
            Phase::Writing => matches!(event, Event::OutputWritten | Event::OutputFailed(_)),
            Phase::Finished => false,
        }
    }

    fn finish(&mut self, outcome: Result<(), ConvertError>) -> (a: Action)
        ensures
            final(self)@ == (ConversionView { phase: Phase::Finished, ..old(self)@ }),
            a == Action::Finish(outcome),
    {
        self.phase = Phase::Finished;
        Action::Finish(outcome)
    }

    /// Takes in what came of the last action and decides the next one.
    pub fn step(&mut self, event: Event) -> (a: Action)
        requires
            accepts(old(self)@.phase, event@),
        ensures
            (final(self)@, a@) == next(old(self)@, event@),
    {
        match event {
            Event::InputRead(bytes) => {
                self.phase = Phase::Opening;
                Action::OpenDocument(bytes)
            },
            Event::InputFailed(m) => self.finish(Err(ConvertError::InputUnreadable(m))),
            Event::DocumentOpened => match select_format(&self.extension) {
                Ok(format) => {
                    self.phase = Phase::Exporting;
                    Action::Export { format, title: self.title.clone() }
                },
                Err(err) => self.finish(Err(err)),
            },
            Event::DocumentRejected(m) => self.finish(Err(ConvertError::DocumentRejected(m))),
            Event::Exported(bytes) => {
                self.phase = Phase::Writing;
                Action::WriteOutput(bytes)
            },
            Event::ExportFailed(m) => self.finish(Err(ConvertError::ExportFailed(m))),
            Event::OutputWritten => self.finish(Ok(())),
            Event::OutputFailed(m) => self.finish(Err(ConvertError::OutputUnwritable(m))),
        }
    }
}

/// The actions a conversion asks for on a sequence of events, one for each
/// event, up to the first event it does not accept.
pub open spec fn run(c: ConversionView, events: Seq<EventView>) -> Seq<ActionView>
    decreases events.len(),
{
    if events.len() == 0 || !accepts(c.phase, events[0]) {
        Seq::empty()
    } else {
        let (c1, a) = next(c, events[0]);
        seq![a] + run(c1, events.drop_first())
    }
}

/// None of the actions exports or writes, and every outcome is a failure:
/// either of reading or opening the input, or `err`.
pub open spec fn ends_without_output(actions: Seq<ActionView>, err: ConvertErrorView) -> bool {
    forall|i: int|
        0 <= i < actions.len() ==> {
            let a = #[trigger] actions[i];
            &&& !(a is Export)
            &&& !(a is WriteOutput)
            &&& (a matches ActionView::Finish(outcome) ==> outcome matches Err(e) && (e is InputUnreadable
                || e is DocumentRejected || e == err))
        }
}

proof fn lemma_run_without_format(c: ConversionView, events: Seq<EventView>, err: ConvertErrorView)
    requires
        format_for(c.extension) == Err::<ExportFormat, ConvertErrorView>(err),
        c.phase == Phase::Reading || c.phase == Phase::Opening || c.phase == Phase::Finished,
    ensures
        ends_without_output(run(c, events), err),
    decreases events.len(),
{
    if events.len() > 0 && accepts(c.phase, events[0]) {
        let (c1, a) = next(c, events[0]);
        let rest = events.drop_first();
        lemma_run_without_format(c1, rest, err);
        let actions = run(c, events);
        assert(actions == seq![a] + run(c1, rest));
        assert forall|i: int| 0 < i < actions.len() implies actions[i] == run(c1, rest)[i - 1] by {}
    }
}

/// A conversion to an output file whose extension names no format never asks
/// for an export or a write: whatever comes back from outside, it fails, and
/// once the document is open it fails with the extension error.
pub proof fn lemma_unsupported_extension_never_writes(
    ext: Seq<char>,
    stem: Option<Seq<char>>,
    events: Seq<EventView>,
)
    requires
        format_named(ext) is None,
    ensures
        ends_without_output(
            run(initial(Some(ext), stem), events),
            ConvertErrorView::UnsupportedExtension(ext),
        ),
{
    lemma_run_without_format(
        initial(Some(ext), stem),
        events,
        ConvertErrorView::UnsupportedExtension(ext),
    );
}

/// A conversion to an output file without an extension never asks the engine
/// for an export, nor for a write: it fails, and once the document is open it
/// fails because the extension is missing.
pub proof fn lemma_missing_extension_never_exports(
    stem: Option<Seq<char>>,
    events: Seq<EventView>,
)
    ensures
        ends_without_output(run(initial(None, stem), events), ConvertErrorView::MissingExtension),
{
    lemma_run_without_format(initial(None, stem), events, ConvertErrorView::MissingExtension);
}

/// Every write carries exactly the bytes of the export that it follows, and
/// success comes only on the confirmation of a write; `start` is the phase in
/// which the first of the actions was decided.
pub open spec fn writes_exported_bytes(
    start: Phase,
    events: Seq<EventView>,
    actions: Seq<ActionView>,
) -> bool {
    &&& forall|i: int|
        0 <= i < actions.len() ==> {
            &&& (#[trigger] actions[i] matches ActionView::WriteOutput(bytes) ==> events[i]
                == EventView::Exported(bytes))
            &&& (actions[i] == ActionView::Finish(Ok(())) ==> events[i]
                == EventView::OutputWritten)
        }
    &&& (actions.len() > 0 && actions[0] == ActionView::Finish(Ok(())) ==> start
        == Phase::Writing)
    &&& forall|i: int, j: int|
        #![trigger actions[i], actions[j]]
        0 <= i && j == i + 1 && j < actions.len() && actions[j] == ActionView::Finish(Ok(()))
            ==> actions[i] is WriteOutput
}

proof fn lemma_next_on_write(c: ConversionView, e: EventView)
    requires
        accepts(c.phase, e),
    ensures
        next(c, e).1 matches ActionView::WriteOutput(bytes) ==> e == EventView::Exported(bytes),
        next(c, e).1 == ActionView::Finish(Ok(())) ==> e == EventView::OutputWritten
            && c.phase == Phase::Writing,
        next(c, e).0.phase == Phase::Writing ==> (e matches EventView::Exported(bytes)
            && next(c, e).1 == ActionView::WriteOutput(bytes)),
{
}

proof fn lemma_run_writes_exported_bytes(c: ConversionView, events: Seq<EventView>)
    ensures
        writes_exported_bytes(c.phase, events, run(c, events)),
        run(c, events).len() <= events.len(),
    decreases events.len(),
{
    if events.len() > 0 && accepts(c.phase, events[0]) {
        let (c1, a) = next(c, events[0]);
        let rest = events.drop_first();
        lemma_next_on_write(c, events[0]);
        lemma_run_writes_exported_bytes(c1, rest);
        let tail = run(c1, rest);
        let actions = run(c, events);
        assert(actions == seq![a] + tail);
        assert forall|i: int| 0 < i < actions.len() implies actions[i] == tail[i - 1]
            && events[i] == rest[i - 1] by {}
        assert forall|i: int, j: int|
            #![trigger actions[i], actions[j]]
            0 <= i && j == i + 1 && j < actions.len() && actions[j] == ActionView::Finish(
                Ok(()),
            ) implies actions[i] is WriteOutput by {
            if i > 0 {
                assert(actions[i] == tail[i - 1]);
                assert(actions[j] == tail[j - 1]);
            } else {
                assert(actions[j] == tail[0]);
            }
        }
    }
}

/// From its start, a conversion writes to the output file exactly the bytes
/// that the engine's export returned, and it ends in success only on the
/// confirmation of that write.
pub proof fn lemma_success_writes_exported_bytes(
    extension: Option<Seq<char>>,
    stem: Option<Seq<char>>,
    events: Seq<EventView>,
)
    ensures
        writes_exported_bytes(Phase::Reading, events, run(initial(extension, stem), events)),
{
    lemma_run_writes_exported_bytes(initial(extension, stem), events);
}

} // verus!
