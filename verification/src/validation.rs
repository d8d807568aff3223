//! The validation protocol: for each (interface, path, expected value)
//! tuple, send the value, await the matching inbound event, read the
//! persisted property back, unset, and await the terminal unset event. Every
//! decision of the protocol is a pure function here; performing the sends,
//! the bounded waits and the property reads is the caller's task, and each
//! outcome is handed back as a plain value.

use vstd::prelude::*;

use crate::event::DataEvent;
use crate::event::DataEventView;
use crate::event::Value;
use crate::event::ValueView;
use crate::types::AstarteType;
use crate::types::AstarteTypeView;
use crate::types::type_eq;

verus! {

/// Bound, in milliseconds, on each wait for an inbound event.
pub const EVENT_TIMEOUT_MS: u64 = 2000;

/// View of an [`Expectation`].
pub struct ExpectationView {
    pub interface: Seq<char>,
    pub path: Seq<char>,
    pub value: AstarteTypeView,
    pub property: bool,
}

/// One dataset entry: the value expected to travel, and the route it takes.
pub struct Expectation {
    /// Interface the value is sent on.
    pub interface: String,
    /// Endpoint path the value is sent to.
    pub path: String,
    /// The value that must be observed back, bit-exact.
    pub value: AstarteType,
    /// Property semantics: the persisted value is read back after the set
    /// event.
    pub property: bool,
}

impl View for Expectation {
    type V = ExpectationView;

    open spec fn view(&self) -> ExpectationView {
        ExpectationView {
            interface: self.interface@,
            path: self.path@,
            value: self.value@,
            property: self.property,
        }
    }
}

/// The protocol's states, in the order they are visited.
#[derive(Debug, Clone, Copy, PartialEq, Eq, Structural)]
pub enum ValidationState {
    Idle,
    AwaitSetEvent,
    AwaitPropertyReadback,
    AwaitUnsetEvent,
    Done,
}

/// The failure kinds; each one is fatal to the whole validation run.
#[derive(Debug, Clone, Copy, PartialEq, Eq, Structural)]
pub enum ErrorKind {
    /// The transport failed while sending, waiting or reading.
    Transport,
    /// The event's interface or path is not the one just exercised.
    ProtocolMismatch,
    /// The event's classification or payload is not the expected one.
    TypeMismatch,
    /// No event arrived within the bound.
    Timeout,
    /// The property store holds no value where one was expected.
    MissingProperty,
}

/// A validation failure, carrying the route of the tuple that failed.
#[derive(Debug)]
pub struct ValidationError {
    pub kind: ErrorKind,
    pub interface: String,
    pub path: String,
}

/// View of an [`AwaitOutcome`].
pub enum AwaitOutcomeView {
    Arrived(DataEventView),
    TimedOut,
    Failed,
}

/// Outcome of one bounded wait for an inbound event: an event arrived within
/// the bound, the bound expired first, or the transport erred.
#[derive(Debug)]
pub enum AwaitOutcome {
    Arrived(DataEvent),
    TimedOut,
    Failed,
}

impl View for AwaitOutcome {
    type V = AwaitOutcomeView;

    open spec fn view(&self) -> AwaitOutcomeView {
        match self {
            AwaitOutcome::Arrived(ev) => AwaitOutcomeView::Arrived(ev@),
            AwaitOutcome::TimedOut => AwaitOutcomeView::TimedOut,
            AwaitOutcome::Failed => AwaitOutcomeView::Failed,
        }
    }
}

/// View of a [`ReadOutcome`].
pub enum ReadOutcomeView {
    Read(Option<AstarteTypeView>),
    Failed,
}

/// Outcome of a property-store read: the stored value (or its absence), or a
/// transport error.
#[derive(Debug)]
pub enum ReadOutcome {
    Read(Option<AstarteType>),
    Failed,
}

impl View for ReadOutcome {
    type V = ReadOutcomeView;

    open spec fn view(&self) -> ReadOutcomeView {
        match self {
            ReadOutcome::Read(Some(v)) => ReadOutcomeView::Read(Some(v@)),
            ReadOutcome::Read(None) => ReadOutcomeView::Read(None),
            ReadOutcome::Failed => ReadOutcomeView::Failed,
        }
    }
}

/// The event carries the route that was just exercised.
pub open spec fn route_matches(exp: ExpectationView, ev: DataEventView) -> bool {
    ev.interface == exp.interface && ev.path == exp.path
}

/// The event answering a send: right route, individual datum, payload equal
/// to the expected value.
pub open spec fn set_event_ok(exp: ExpectationView, ev: DataEventView) -> bool {
    &&& route_matches(exp, ev)
    &&& ev.data == ValueView::Individual(exp.value)
}

/// The event answering an unset: right route, unset marker.
pub open spec fn unset_event_ok(exp: ExpectationView, ev: DataEventView) -> bool {
    &&& route_matches(exp, ev)
    &&& ev.data is Unset
}

/// The verdict of the wait for the set event: no failure, or the first
/// failure's kind.
pub open spec fn set_phase_verdict(exp: ExpectationView, outcome: AwaitOutcomeView) -> Option<
    ErrorKind,
> {
    match outcome {
        AwaitOutcomeView::Arrived(ev) => if !route_matches(exp, ev) {
            Some(ErrorKind::ProtocolMismatch)
        } else if set_event_ok(exp, ev) {
            None
        } else {
            Some(ErrorKind::TypeMismatch)
        },
        AwaitOutcomeView::TimedOut => Some(ErrorKind::Timeout),
        AwaitOutcomeView::Failed => Some(ErrorKind::Transport),
    }
}

/// The verdict of the property readback.
pub open spec fn readback_verdict(exp: ExpectationView, outcome: ReadOutcomeView) -> Option<
    ErrorKind,
> {
    match outcome {
        ReadOutcomeView::Read(Some(v)) => if v == exp.value {
            None
        } else {
            Some(ErrorKind::TypeMismatch)
        },
        ReadOutcomeView::Read(None) => Some(ErrorKind::MissingProperty),
        ReadOutcomeView::Failed => Some(ErrorKind::Transport),
    }
}

/// The verdict of the wait for the unset event.
pub open spec fn unset_phase_verdict(exp: ExpectationView, outcome: AwaitOutcomeView) -> Option<
    ErrorKind,
> {
    match outcome {
        AwaitOutcomeView::Arrived(ev) => if !route_matches(exp, ev) {
            Some(ErrorKind::ProtocolMismatch)
        } else if unset_event_ok(exp, ev) {
            None
        } else {
            Some(ErrorKind::TypeMismatch)
        },
        AwaitOutcomeView::TimedOut => Some(ErrorKind::Timeout),
        AwaitOutcomeView::Failed => Some(ErrorKind::Transport),
    }
}

fn validation_error(kind: ErrorKind, exp: &Expectation) -> (e: ValidationError)
    ensures
        e.kind == kind,
        e.interface@ == exp.interface@,
        e.path@ == exp.path@,
{
    ValidationError { kind, interface: exp.interface.clone(), path: exp.path.clone() }
}

/// Rule for the set event: it must match the route just sent on, be
/// classifiable as an individual datum, and carry exactly the expected
/// value; any mismatch or timeout aborts, with no retry. On success the
/// protocol moves to the readback for a property endpoint, else straight to
/// the unset phase.
pub fn check_set_event(exp: &Expectation, outcome: &AwaitOutcome) -> (r: Result<
    ValidationState,
    ValidationError,
>)
    ensures
        r is Ok <==> set_phase_verdict(exp@, outcome@) is None,
        r matches Ok(s) ==> s == (if exp.property {
            ValidationState::AwaitPropertyReadback
        } else {
            ValidationState::AwaitUnsetEvent
        }),
        r matches Err(e) ==> Some(e.kind) == set_phase_verdict(exp@, outcome@)
            && e.interface@ == exp.interface@ && e.path@ == exp.path@,
{
    match outcome {
        AwaitOutcome::TimedOut => Err(validation_error(ErrorKind::Timeout, exp)),
        AwaitOutcome::Failed => Err(validation_error(ErrorKind::Transport, exp)),
        AwaitOutcome::Arrived(ev) => {
            if !(ev.interface == exp.interface) || !(ev.path == exp.path) {
                return Err(validation_error(ErrorKind::ProtocolMismatch, exp));
            }
            match &ev.data {
                Value::Individual(v) => {
                    if type_eq(v, &exp.value) {
                        if exp.property {
                            Ok(ValidationState::AwaitPropertyReadback)
                        } else {
                            Ok(ValidationState::AwaitUnsetEvent)
                        }
                    } else {
                        Err(validation_error(ErrorKind::TypeMismatch, exp))
                    }
                },
                _ => Err(validation_error(ErrorKind::TypeMismatch, exp)),
            }
        },
    }
}

/// Rule for the property readback: the store must hold a value for the
/// route, and it must equal the expected value; absence and mismatch are
/// distinct failures. On success the protocol moves to the unset phase.
pub fn check_property_readback(exp: &Expectation, outcome: &ReadOutcome) -> (r: Result<
    ValidationState,
    ValidationError,
>)
    ensures
        r is Ok <==> readback_verdict(exp@, outcome@) is None,
        r matches Ok(s) ==> s == ValidationState::AwaitUnsetEvent,
        r matches Err(e) ==> Some(e.kind) == readback_verdict(exp@, outcome@)
            && e.interface@ == exp.interface@ && e.path@ == exp.path@,
{
    match outcome {
        ReadOutcome::Failed => Err(validation_error(ErrorKind::Transport, exp)),
        ReadOutcome::Read(None) => Err(validation_error(ErrorKind::MissingProperty, exp)),
        ReadOutcome::Read(Some(v)) => {
            if type_eq(v, &exp.value) {
                Ok(ValidationState::AwaitUnsetEvent)
            } else {
                Err(validation_error(ErrorKind::TypeMismatch, exp))
            }
        },
    }
}

/// Rule for the unset event: it must match the route, and its classification
/// must be exactly the absence-of-value case; any other shape aborts. On
/// success the tuple's validation is done.
pub fn check_unset_event(exp: &Expectation, outcome: &AwaitOutcome) -> (r: Result<
    ValidationState,
    ValidationError,
>)
    ensures
        r is Ok <==> unset_phase_verdict(exp@, outcome@) is None,
        r matches Ok(s) ==> s == ValidationState::Done,
        r matches Err(e) ==> Some(e.kind) == unset_phase_verdict(exp@, outcome@)
            && e.interface@ == exp.interface@ && e.path@ == exp.path@,
{
    match outcome {
        AwaitOutcome::TimedOut => Err(validation_error(ErrorKind::Timeout, exp)),
        AwaitOutcome::Failed => Err(validation_error(ErrorKind::Transport, exp)),
        AwaitOutcome::Arrived(ev) => {
            if !(ev.interface == exp.interface) || !(ev.path == exp.path) {
                return Err(validation_error(ErrorKind::ProtocolMismatch, exp));
            }
            if ev.data.is_unset() {
                Ok(ValidationState::Done)
            } else {
                Err(validation_error(ErrorKind::TypeMismatch, exp))
            }
        },
    }
}

/// View of an [`EntryScript`].
pub struct EntryScriptView {
    pub send_accepted: bool,
    pub set_outcome: AwaitOutcomeView,
    pub readback: ReadOutcomeView,
    pub unset_accepted: bool,
    pub unset_outcome: AwaitOutcomeView,
}

/// Everything the outside world answered while one tuple was validated: the
/// fate of the two sends, the two awaited events, and the property read.
#[derive(Debug)]
pub struct EntryScript {
    /// The transport accepted the send of the value.
    pub send_accepted: bool,
    /// What the bounded wait for the set event produced.
    pub set_outcome: AwaitOutcome,
    /// What the property-store read produced (ignored for a non-property
    /// endpoint).
    pub readback: ReadOutcome,
    /// The transport accepted the unset.
    pub unset_accepted: bool,
    /// What the bounded wait for the unset event produced.
    pub unset_outcome: AwaitOutcome,
}

impl View for EntryScript {
    type V = EntryScriptView;

    open spec fn view(&self) -> EntryScriptView {
        EntryScriptView {
            send_accepted: self.send_accepted,
            set_outcome: self.set_outcome@,
            readback: self.readback@,
            unset_accepted: self.unset_accepted,
            unset_outcome: self.unset_outcome@,
        }
    }
}

/// The first failure while one tuple runs through the whole protocol, or
/// nothing when every step answered as expected.
pub open spec fn entry_verdict(exp: ExpectationView, sc: EntryScriptView) -> Option<ErrorKind> {
    if !sc.send_accepted {
        Some(ErrorKind::Transport)
    } else if set_phase_verdict(exp, sc.set_outcome) is Some {
        set_phase_verdict(exp, sc.set_outcome)
    } else if exp.property && readback_verdict(exp, sc.readback) is Some {
        readback_verdict(exp, sc.readback)
    } else if !sc.unset_accepted {
        Some(ErrorKind::Transport)
    } else {
        unset_phase_verdict(exp, sc.unset_outcome)
    }
}

/// Validates one tuple against the outcomes the outside world produced:
/// exactly one attempt, the first failure aborts with its kind and the
/// route, and success means every phase answered as the protocol demands.
pub fn validate_entry(exp: &Expectation, script: &EntryScript) -> (r: Result<(), ValidationError>)
    ensures
        r is Ok <==> entry_verdict(exp@, script@) is None,
        r matches Err(e) ==> Some(e.kind) == entry_verdict(exp@, script@) && e.interface@
            == exp.interface@ && e.path@ == exp.path@,
{
    if !script.send_accepted {
        return Err(validation_error(ErrorKind::Transport, exp));
    }
    match check_set_event(exp, &script.set_outcome) {
        Ok(_) => (),
        Err(e) => {
            return Err(e);
        },
    }
    if exp.property {
        match check_property_readback(exp, &script.readback) {
            Ok(_) => (),
            Err(e) => {
                return Err(e);
            },
        }
    }
    if !script.unset_accepted {
        return Err(validation_error(ErrorKind::Transport, exp));
    }
    match check_unset_event(exp, &script.unset_outcome) {
        Ok(_) => Ok(()),
        Err(e) => Err(e),
    }
}

/// Every tuple of the dataset validated cleanly against its script.
pub open spec fn dataset_ok(entries: Seq<Expectation>, scripts: Seq<EntryScript>) -> bool {
    forall|i: int|
        0 <= i < entries.len() ==> entry_verdict(entries[i]@, #[trigger] scripts[i]@) is None
}

/// Validates a whole dataset, one tuple at a time, in order: the first
/// failing tuple aborts the run with its failure, after a clean prefix;
/// success means every tuple validated.
pub fn validate_dataset(entries: &Vec<Expectation>, scripts: &Vec<EntryScript>) -> (r: Result<
    (),
    ValidationError,
>)
    requires
        entries@.len() == scripts@.len(),
    ensures
        r is Ok <==> dataset_ok(entries@, scripts@),
        r matches Err(e) ==> exists|i: int|
            0 <= i < entries@.len() && Some(e.kind) == entry_verdict(
                entries@[i]@,
                #[trigger] scripts@[i]@,
            ) && e.interface@ == entries@[i].interface@ && e.path@ == entries@[i].path@ && (
            forall|j: int| 0 <= j < i ==> entry_verdict(entries@[j]@, scripts@[j]@) is None),
{
    let mut i: usize = 0;
    while i < entries.len()
        invariant
            entries@.len() == scripts@.len(),
            i <= entries@.len(),
            forall|j: int| 0 <= j < i ==> entry_verdict(entries@[j]@, #[trigger] scripts@[j]@) is None,
        decreases entries@.len() - i,
    {
        match validate_entry(&entries[i], &scripts[i]) {
            Ok(_) => (),
            Err(e) => {
                return Err(e);
            },
        }
        i = i + 1;
    }
    Ok(())
}

/// Precision guard: with a 64-bit integer expected, the set event passes the
/// protocol exactly when the observed payload equals it bit for bit — the
/// comparison lives on `i64`, so no value beyond the double-precision exact
/// range can slip through as equal-but-narrowed.
pub proof fn lemma_precision_guard(exp: ExpectationView, ev: DataEventView, a: i64, b: i64)
    requires
        exp.value == AstarteTypeView::LongInteger(a),
        ev.data == ValueView::Individual(AstarteTypeView::LongInteger(b)),
        route_matches(exp, ev),
    ensures
        set_event_ok(exp, ev) <==> a == b,
{
}

/// The array form of the precision guard: element sequences compare as
/// 64-bit integers.
pub proof fn lemma_precision_guard_array(
    exp: ExpectationView,
    ev: DataEventView,
    a: Seq<i64>,
    b: Seq<i64>,
)
    requires
        exp.value == AstarteTypeView::LongIntegerArray(a),
        ev.data == ValueView::Individual(AstarteTypeView::LongIntegerArray(b)),
        route_matches(exp, ev),
    ensures
        set_event_ok(exp, ev) <==> a == b,
{
}

/// Name of the property-style interface the validation datasets exercise.
pub fn server_property_interface() -> (r: String)
    ensures
        r@ == "org.astarte-platform.rust.e2etest.ServerProperty"@,
{
    "org.astarte-platform.rust.e2etest.ServerProperty".to_owned()
}

/// The boundary dataset: a 64-bit integer scalar and a four-element array of
/// the same, both 2^55 — past the exact-integer range of double precision —
/// at the reserved overflow paths.
pub fn overflow_dataset() -> (r: Vec<Expectation>)
    ensures
        r@.len() == 2,
        r@[0].interface@ == "org.astarte-platform.rust.e2etest.ServerProperty"@,
        r@[0].path@ == "/overflow/longinteger_endpoint"@,
        r@[0].value@ == AstarteTypeView::LongInteger(0x80000000000000),
        r@[0].property,
        r@[1].interface@ == "org.astarte-platform.rust.e2etest.ServerProperty"@,
        r@[1].path@ == "/overflow/longintegerarray_endpoint"@,
        r@[1].value@ == AstarteTypeView::LongIntegerArray(
            seq![
                0x80000000000000i64,
                0x80000000000000i64,
                0x80000000000000i64,
                0x80000000000000i64,
            ],
        ),
        r@[1].property,
{
    let interface = server_property_interface();
    let mut arr: Vec<i64> = Vec::new();
    arr.push(0x80000000000000);
    arr.push(0x80000000000000);
    arr.push(0x80000000000000);
    arr.push(0x80000000000000);
    proof {
        assert(arr@ =~= seq![
            0x80000000000000i64,
            0x80000000000000i64,
            0x80000000000000i64,
            0x80000000000000i64,
        ]);
    }
    let mut r: Vec<Expectation> = Vec::new();
    r.push(
        Expectation {
            interface: interface.clone(),
            path: "/overflow/longinteger_endpoint".to_owned(),
            value: AstarteType::LongInteger(0x80000000000000),
            property: true,
        },
    );
    r.push(
        Expectation {
            interface,
            path: "/overflow/longintegerarray_endpoint".to_owned(),
            value: AstarteType::LongIntegerArray(arr),
            property: true,
        },
    );
    r
}

/// The baseline dataset: one value of every supported variant, each at its
/// own endpoint under `/sensor_1`, all with property semantics.
pub fn baseline_dataset() -> (r: Vec<Expectation>)
    ensures
        r@.len() == 14,
        forall|i: int|
            0 <= i < r@.len() ==> (#[trigger] r@[i]).interface@
                == "org.astarte-platform.rust.e2etest.ServerProperty"@ && r@[i].property,
        r@[0].path@ == "/sensor_1/boolean_endpoint"@ && r@[0].value@
            == AstarteTypeView::Boolean(true),
        r@[1].path@ == "/sensor_1/integer_endpoint"@ && r@[1].value@
            == AstarteTypeView::Integer(42),
        r@[2].path@ == "/sensor_1/longinteger_endpoint"@ && r@[2].value@
            == AstarteTypeView::LongInteger(17179869184),
        r@[3].path@ == "/sensor_1/double_endpoint"@ && r@[3].value@ == AstarteTypeView::Double(
            0x4016000000000000,
        ),
        r@[4].path@ == "/sensor_1/string_endpoint"@ && r@[4].value@ == AstarteTypeView::String(
            "hello"@,
        ),
        r@[5].path@ == "/sensor_1/binaryblob_endpoint"@ && r@[5].value@
            == AstarteTypeView::BinaryBlob(seq![104u8, 101u8, 108u8, 108u8, 111u8]),
        r@[6].path@ == "/sensor_1/datetime_endpoint"@ && r@[6].value@
            == AstarteTypeView::Timestamp(1693526400000),
        r@[7].path@ == "/sensor_1/booleanarray_endpoint"@ && r@[7].value@
            == AstarteTypeView::BooleanArray(seq![true, false, true]),
        r@[8].path@ == "/sensor_1/integerarray_endpoint"@ && r@[8].value@
            == AstarteTypeView::IntegerArray(seq![-1i32, 2i32, 3i32]),
        r@[9].path@ == "/sensor_1/longintegerarray_endpoint"@ && r@[9].value@
            == AstarteTypeView::LongIntegerArray(seq![17179869184i64, 2i64, 3i64]),
        r@[10].path@ == "/sensor_1/doublearray_endpoint"@ && r@[10].value@
            == AstarteTypeView::DoubleArray(seq![0x3FF0000000000000u64, 0x4000000000000000u64]),
        r@[11].path@ == "/sensor_1/stringarray_endpoint"@ && r@[11].value@
            == AstarteTypeView::StringArray(seq!["hello"@, "world"@]),
        r@[12].path@ == "/sensor_1/binaryblobarray_endpoint"@ && r@[12].value@
            == AstarteTypeView::BinaryBlobArray(seq![seq![104u8, 105u8], seq![104u8, 111u8]]),
        r@[13].path@ == "/sensor_1/datetimearray_endpoint"@ && r@[13].value@
            == AstarteTypeView::TimestampArray(seq![1693526400000i64, 1693526500000i64]),
{
    let interface = server_property_interface();
    let mut booleans: Vec<bool> = Vec::new();
    booleans.push(true);
    booleans.push(false);
    booleans.push(true);
    let mut integers: Vec<i32> = Vec::new();
    integers.push(-1);
    integers.push(2);
    integers.push(3);
    let mut longs: Vec<i64> = Vec::new();
    longs.push(17179869184);
    longs.push(2);
    longs.push(3);
    let mut doubles: Vec<u64> = Vec::new();
    doubles.push(0x3FF0000000000000);
    doubles.push(0x4000000000000000);
    let mut strings: Vec<String> = Vec::new();
    strings.push("hello".to_owned());
    strings.push("world".to_owned());
    let mut blob: Vec<u8> = Vec::new();
    blob.push(104);
    blob.push(101);
    blob.push(108);
    blob.push(108);
    blob.push(111);
    let mut blob_a: Vec<u8> = Vec::new();
    blob_a.push(104);
    blob_a.push(105);
    let mut blob_b: Vec<u8> = Vec::new();
    blob_b.push(104);
    blob_b.push(111);
    let mut blobs: Vec<Vec<u8>> = Vec::new();
    blobs.push(blob_a);
    blobs.push(blob_b);
    let mut stamps: Vec<i64> = Vec::new();
    stamps.push(1693526400000);
    stamps.push(1693526500000);
    proof {
        assert(crate::types::str_views(strings@) =~= seq!["hello"@, "world"@]);
        assert(crate::types::blob_views(blobs@) =~~= seq![seq![104u8, 105u8], seq![104u8, 111u8]]);
        assert(booleans@ =~= seq![true, false, true]);
        assert(integers@ =~= seq![-1i32, 2i32, 3i32]);
        assert(longs@ =~= seq![17179869184i64, 2i64, 3i64]);
        assert(doubles@ =~= seq![0x3FF0000000000000u64, 0x4000000000000000u64]);
        assert(blob@ =~= seq![104u8, 101u8, 108u8, 108u8, 111u8]);
        assert(stamps@ =~= seq![1693526400000i64, 1693526500000i64]);
    }
    let mut r: Vec<Expectation> = Vec::new();
    r.push(
        Expectation {
            interface: interface.clone(),
            path: "/sensor_1/boolean_endpoint".to_owned(),
            value: AstarteType::Boolean(true),
            property: true,
        },
    );
    r.push(
        Expectation {
            interface: interface.clone(),
            path: "/sensor_1/integer_endpoint".to_owned(),
            value: AstarteType::Integer(42),
            property: true,
        },
    );
    r.push(
        Expectation {
            interface: interface.clone(),
            path: "/sensor_1/longinteger_endpoint".to_owned(),
            value: AstarteType::LongInteger(17179869184),
            property: true,
        },
    );
    r.push(
        Expectation {
            interface: interface.clone(),
            path: "/sensor_1/double_endpoint".to_owned(),
            value: AstarteType::Double(0x4016000000000000),
            property: true,
        },
    );
    r.push(
        Expectation {
            interface: interface.clone(),
            path: "/sensor_1/string_endpoint".to_owned(),
            value: AstarteType::String("hello".to_owned()),
            property: true,
        },
    );
    r.push(
        Expectation {
            interface: interface.clone(),
            path: "/sensor_1/binaryblob_endpoint".to_owned(),
            value: AstarteType::BinaryBlob(blob),
            property: true,
        },
    );
    r.push(
        Expectation {
            interface: interface.clone(),
            path: "/sensor_1/datetime_endpoint".to_owned(),
            value: AstarteType::Timestamp(1693526400000),
            property: true,
        },
    );
    r.push(
        Expectation {
            interface: interface.clone(),
            path: "/sensor_1/booleanarray_endpoint".to_owned(),
            value: AstarteType::BooleanArray(booleans),
            property: true,
        },
    );
    r.push(
        Expectation {
            interface: interface.clone(),
            path: "/sensor_1/integerarray_endpoint".to_owned(),
            value: AstarteType::IntegerArray(integers),
            property: true,
        },
    );
    r.push(
        Expectation {
            interface: interface.clone(),
            path: "/sensor_1/longintegerarray_endpoint".to_owned(),
            value: AstarteType::LongIntegerArray(longs),
            property: true,
        },
    );
    r.push(
        Expectation {
            interface: interface.clone(),
            path: "/sensor_1/doublearray_endpoint".to_owned(),
            value: AstarteType::DoubleArray(doubles),
            property: true,
        },
    );
    r.push(
        Expectation {
            interface: interface.clone(),
            path: "/sensor_1/stringarray_endpoint".to_owned(),
            value: AstarteType::StringArray(strings),
            property: true,
        },
    );
    r.push(
        Expectation {
            interface: interface.clone(),
            path: "/sensor_1/binaryblobarray_endpoint".to_owned(),
            value: AstarteType::BinaryBlobArray(blobs),
            property: true,
        },
    );
    r.push(
        Expectation {
            interface: interface.clone(),
            path: "/sensor_1/datetimearray_endpoint".to_owned(),
            value: AstarteType::TimestampArray(stamps),
            property: true,
        },
    );
    r
}

} // verus!
