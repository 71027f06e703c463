//! Data-driven test declarations.
//!
//! A data declaration names a document whose top level is a sequence; each
//! element of the sequence becomes one test case. The deserializer that
//! turns elements into typed values discards source positions, so the
//! position of every top-level element is recovered separately, by a
//! streaming scan of the document's parse events.
use vstd::prelude::*;

use yaml_rust::parser::Event;

verus! {

/// Descriptor of a data-driven test declaration. `root` is where the
/// document came from (used in diagnostics only); `source` is its text.
pub struct DataTestDesc {
    pub name: String,
    pub ignore: bool,
    pub root: String,
    pub source: String,
}

/// Descriptor of a single data-driven case whose payload has type `T`:
/// the payload, an optional self-description used in the case name, and a
/// source location such as `line 3`.
pub struct DataTestCaseDesc<T> {
    pub case: T,
    pub name: Option<String>,
    pub location: String,
}

/// A source of data-driven cases: a type that can turn a document into a
/// list of case descriptors. Implementations are supplied by the caller;
/// the standard route deserializes the document and zips the elements with
/// the positions that `describe_test` recovers.
pub trait DataTestCase: Sized {
    fn from_str(input: &str) -> Vec<DataTestCaseDesc<Self>>;
}

/// Optional self-description of a case payload: a display string used in
/// the case name, or `None` for payloads with no natural rendering.
pub trait TestNameWithDefault {
    fn name(&self) -> Option<String>;
}

/// One parse event of a document, reduced to what the position scan needs:
/// the event kind and, for events that open an element, its source line
/// (1-based).
#[derive(Clone, Copy, Debug, PartialEq, Eq, Structural)]
pub enum YamlEvent {
    Scalar { line: usize },
    MappingStart { line: usize },
    MappingEnd,
    SequenceStart { line: usize },
    SequenceEnd,
    Other,
}

/// The parse events of `source`, in document order and without the final
/// stream-end event, or `None` when the document does not parse.
pub uninterp spec fn yaml_event_stream(source: Seq<char>) -> Option<Seq<YamlEvent>>;

/// Relies on `yaml_rust::parser::Parser`: the sequence of parse events of a
/// document, each with its source line, is a function of the document text
/// alone; an unparsable document yields a scan error instead.
#[verifier::external_body]
pub(crate) fn scan_yaml_events(source: &str) -> (r: Option<Vec<YamlEvent>>)
    ensures
        r matches Some(events) ==> yaml_event_stream(source@) == Some(events@),
        r is None ==> yaml_event_stream(source@) is None,
{
    let mut parser = yaml_rust::parser::Parser::new(source.chars());
    let mut out: Vec<YamlEvent> = Vec::new();
    loop {
        let (e, m) = match parser.next() { Err(_) => return None, Ok(x) => x };
        if matches!(e, Event::StreamEnd) { return Some(out); }
        out.push(match e {
            Event::Scalar(..) => YamlEvent::Scalar { line: m.line() },
            Event::MappingStart(_) => YamlEvent::MappingStart { line: m.line() },
            Event::MappingEnd => YamlEvent::MappingEnd,
            Event::SequenceStart(_) => YamlEvent::SequenceStart { line: m.line() },
            Event::SequenceEnd => YamlEvent::SequenceEnd,
            _ => YamlEvent::Other,
        });
    }
}

/// One step of the position scan: how an event changes the nesting depth,
/// and whether it marks the start of a top-level element. Depth 0 is the
/// document root; its immediate children sit at depth 1.
pub open spec fn spec_scan_step(depth: int, acc: Seq<usize>, e: YamlEvent) -> (int, Seq<usize>) {
    match e {
        YamlEvent::Scalar { line } => (depth, if depth == 1 { acc.push(line) } else { acc }),
        YamlEvent::MappingStart { line } => (depth + 1, if depth == 1 { acc.push(line) } else { acc }),
        YamlEvent::SequenceStart { line } => (
            depth + 1,
            if depth == 1 {
                acc.push(line)
            } else {
                acc
            },
        ),
        YamlEvent::MappingEnd => (depth - 1, acc),
        YamlEvent::SequenceEnd => (depth - 1, acc),
        YamlEvent::Other => (depth, acc),
    }
}

/// Depth and recorded positions after scanning the first `n` events.
pub open spec fn spec_scan_prefix(events: Seq<YamlEvent>, n: int) -> (int, Seq<usize>)
    decreases n,
{
    if n <= 0 {
        (0int, Seq::<usize>::empty())
    } else {
        let prev = spec_scan_prefix(events, n - 1);
        spec_scan_step(prev.0, prev.1, events[n - 1])
    }
}

/// The source line of every top-level element of the event stream, in
/// document order.
pub open spec fn spec_positions(events: Seq<YamlEvent>) -> Seq<usize> {
    spec_scan_prefix(events, events.len() as int).1
}

proof fn lemma_scan_depth_bound(events: Seq<YamlEvent>, n: int)
    requires
        0 <= n <= events.len(),
    ensures
        -n <= spec_scan_prefix(events, n).0 <= n,
    decreases n,
{
    if n > 0 {
        lemma_scan_depth_bound(events, n - 1);
    }
}

/// Scan the events of a list-shaped document and record the line of every
/// top-level element: a scalar at depth 1, or a mapping or sequence opening
/// at depth 1.
pub fn index_cases(events: &Vec<YamlEvent>) -> (r: Vec<usize>)
    ensures
        r@ == spec_positions(events@),
{
    let mut index: Vec<usize> = Vec::new();
    let mut depth: i128 = 0;
    for i in 0..events.len()
        invariant
            depth as int == spec_scan_prefix(events@, i as int).0,
            index@ == spec_scan_prefix(events@, i as int).1,
            -(i as int) <= depth as int <= i as int,
    {
        proof {
            lemma_scan_depth_bound(events@, i as int);
        }
        match events[i] {
            YamlEvent::Scalar { line } => {
                if depth == 1 {
                    index.push(line);
                }
            },
            YamlEvent::MappingStart { line } => {
                if depth == 1 {
                    index.push(line);
                }
                depth = depth + 1;
            },
            YamlEvent::SequenceStart { line } => {
                if depth == 1 {
                    index.push(line);
                }
                depth = depth + 1;
            },
            YamlEvent::MappingEnd => {
                depth = depth - 1;
            },
            YamlEvent::SequenceEnd => {
                depth = depth - 1;
            },
            YamlEvent::Other => {},
        }
    }
    index
}

/// Why a data declaration could not be expanded.
#[derive(Debug)]
pub enum DataError {
    /// The document does not parse.
    InvalidDocument,
    /// The position scan found a different number of top-level elements
    /// than the deserializer produced: the scan misread the document.
    IndexMismatch { indexed: usize, elements: usize },
    /// The document holds no cases at all.
    NoCases,
}

/// The location string `line N`.
pub open spec fn spec_location(line: usize) -> Seq<char> {
    "line "@ + crate::text::spec_decimal(line as nat)
}

/// What `describe_test` returns for a document whose event stream is
/// `stream` and whose deserializer produced `count` elements.
pub open spec fn spec_describe_outcome(stream: Option<Seq<YamlEvent>>, count: nat) -> Result<
    Seq<usize>,
    DataError,
> {
    match stream {
        None => Err(DataError::InvalidDocument),
        Some(events) => {
            let positions = spec_positions(events);
            if positions.len() != count {
                Err(
                    DataError::IndexMismatch {
                        indexed: positions.len() as usize,
                        elements: count as usize,
                    },
                )
            } else if count == 0 {
                Err(DataError::NoCases)
            } else {
                Ok(positions)
            }
        },
    }
}

/// A duplicate of an optional display name, preserving its value.
fn duplicate_name(n: &Option<String>) -> (r: Option<String>)
    ensures
        r == *n,
{
    match n {
        Some(s) => Some(s.clone()),
        None => None,
    }
}

/// Pair every deserialized element of a list-shaped document with the
/// source position of the corresponding top-level element, and its optional
/// self-description. Fails when the document does not parse, when the
/// position scan disagrees with the deserializer's element count, or when
/// there are no cases at all.
pub fn describe_test<T>(source: &str, elements: Vec<T>, names: &Vec<Option<String>>) -> (r: Result<
    Vec<DataTestCaseDesc<T>>,
    DataError,
>)
    requires
        elements@.len() == names@.len(),
    ensures
        match r {
            Ok(descs) => {
                &&& spec_describe_outcome(yaml_event_stream(source@), elements@.len() as nat)
                    matches Ok(positions)
                &&& descs@.len() == elements@.len()
                &&& forall|k: int|
                    0 <= k < descs@.len() ==> (#[trigger] descs@[k]).case == elements@[k]
                        && descs@[k].name == names@[k] && descs@[k].location@ == spec_location(
                        positions[k],
                    )
            },
            Err(e) => spec_describe_outcome(yaml_event_stream(source@), elements@.len() as nat)
                matches Err(e2) && e2 == e,
        },
{
    let events = match scan_yaml_events(source) {
        Some(events) => events,
        None => {
            return Err(DataError::InvalidDocument);
        },
    };
    let positions = index_cases(&events);
    if positions.len() != elements.len() {
        return Err(
            DataError::IndexMismatch { indexed: positions.len(), elements: elements.len() },
        );
    }
    if elements.len() == 0 {
        return Err(DataError::NoCases);
    }
    let mut elements = elements;
    let mut descs: Vec<DataTestCaseDesc<T>> = Vec::new();
    let ghost all_elements = elements@;
    let ghost all_names = names@;
    let mut k: usize = 0;
    while k < positions.len()
        invariant
            positions@.len() == all_elements.len() == all_names.len(),
            all_names == names@,
            k <= positions.len(),
            elements@ == all_elements.skip(k as int),
            descs@.len() == k,
            forall|j: int|
                0 <= j < k ==> (#[trigger] descs@[j]).case == all_elements[j] && descs@[j].name
                    == all_names[j] && descs@[j].location@ == spec_location(positions@[j]),
        decreases positions@.len() - k,
    {
        let case = elements.remove(0);
        let name = duplicate_name(&names[k]);
        proof {
            reveal_strlit("line ");
            assert(elements@ =~= all_elements.skip(k + 1 as int));
            assert(all_elements.skip(k as int)[0] == all_elements[k as int]);
        }
        let mut location: String = String::from_str("line ");
        let digits = crate::text::decimal_string(positions[k]);
        location.append(digits.as_str());
        descs.push(DataTestCaseDesc { case, name, location });
        k = k + 1;
    }
    Ok(descs)
}

} // verus!
