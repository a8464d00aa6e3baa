//! Queue records as the print server reports them.

use vstd::prelude::*;

verus! {

/// The state of a print queue.
#[derive(Debug, Clone, Copy, PartialEq, Eq, Structural)]
pub enum PrinterState {
    Idle,
    Processing,
    Stopped,
}

impl PrinterState {
    /// The state for a protocol state code: 3, 4 and 5 are idle, processing and stopped.
    pub open spec fn spec_from_code(code: i32) -> Option<PrinterState> {
        if code == 3 {
            Some(PrinterState::Idle)
        } else if code == 4 {
            Some(PrinterState::Processing)
        } else if code == 5 {
            Some(PrinterState::Stopped)
        } else {
            None
        }
    }

    /// The state for a protocol state code, if it is one of the three.
    pub fn from_code(code: i32) -> (r: Option<PrinterState>)
        ensures
            r == Self::spec_from_code(code),
    {
        if code == 3 {
            Some(PrinterState::Idle)
        } else if code == 4 {
            Some(PrinterState::Processing)
        } else if code == 5 {
            Some(PrinterState::Stopped)
        } else {
            None
        }
    }
}

/// The state of a print job.
#[derive(Debug, Clone, Copy, PartialEq, Eq, Structural)]
pub enum JobState {
    Pending,
    PendingHeld,
    Processing,
    ProcessingStopped,
    Canceled,
    Aborted,
    Completed,
}

/// A supply of a printer (toner, ink, drum). A `color` of `none` means that it has none.
#[derive(Debug, Clone)]
pub struct PrinterMarker {
    pub marker_type: String,
    pub color: String,
    pub name: String,
    pub level: Option<u32>,
}

/// One queue of the print server, as one poll reported it.
#[derive(Debug, Clone)]
pub struct IppPrintQueueState {
    pub queue_name: String,
    pub description: String,
    pub printer_make: String,
    pub state: PrinterState,
    pub job_count: i32,
    pub state_message: String,
    pub state_reason: String,
    pub cups_version: String,
    pub markers: Vec<PrinterMarker>,
}

/// A printer's state without its supplies.
#[derive(Debug, Clone)]
pub struct IppPrinterState {
    pub queue_name: String,
    pub description: String,
    pub state: PrinterState,
    pub job_count: i32,
    pub state_message: String,
    pub state_reason: String,
}

/// A print job; `created_millis` counts milliseconds since the Unix epoch.
#[derive(Debug, Clone)]
pub struct PrintJobState {
    pub name: String,
    pub id: i32,
    pub state: JobState,
    pub reason: String,
    pub created_millis: i64,
}

/// The values that the print server reports for one printer, as read from its
/// answer. A value that could not be read is absent.
#[derive(Debug, Clone)]
pub struct PrinterAttributes {
    pub state: Option<i32>,
    pub job_count: Option<i32>,
    pub queue_name: String,
    pub description: String,
    pub printer_make: String,
    pub state_message: String,
    pub state_reason: String,
    pub cups_version: String,
    pub marker_types: Option<Vec<String>>,
    pub marker_colors: Option<Vec<String>>,
    pub marker_names: Option<Vec<String>>,
    pub marker_levels: Option<Vec<i32>>,
}

/// Failures in talking to the print server or in reading its answer.
#[derive(Debug, Clone, PartialEq, Eq)]
pub enum CupsError {
    /// The server address is no valid URL, or a queue address cannot be made from it.
    InvalidUri,
    /// A printer's state is missing.
    MissingPrinterState,
    /// A printer reports a state code that is none of idle, processing and stopped.
    UnknownPrinterState(i32),
    /// A printer's queued job count is missing.
    MissingJobCount,
    /// The request failed; the text says why.
    Request(String),
}

impl CupsError {
    /// A copy of the error.
    pub fn duplicate(&self) -> (r: CupsError)
        ensures
            r == *self,
    {
        match self {
            CupsError::InvalidUri => CupsError::InvalidUri,
            CupsError::MissingPrinterState => CupsError::MissingPrinterState,
            CupsError::UnknownPrinterState(code) => CupsError::UnknownPrinterState(*code),
            CupsError::MissingJobCount => CupsError::MissingJobCount,
            CupsError::Request(text) => CupsError::Request(text.clone()),
        }
    }
}

/// A reported supply level: a negative value means that the server knows no level.
pub open spec fn level_of(v: i32) -> Option<u32> {
    if v < 0 {
        None
    } else {
        Some(v as u32)
    }
}

/// How many supplies a printer reports: as many as it names types, when all four
/// lists are there and none is shorter than the list of types; else none.
pub open spec fn marker_count(a: PrinterAttributes) -> nat {
    match (a.marker_types, a.marker_colors, a.marker_names, a.marker_levels) {
        (Some(t), Some(c), Some(n), Some(l)) => if c.len() >= t.len() && n.len() >= t.len() && l.len()
            >= t.len() {
            t.len() as nat
        } else {
            0
        },
        _ => 0,
    }
}

/// Supply `i` of a printer is the `i`-th entry of each of its four lists.
pub open spec fn marker_matches(a: PrinterAttributes, i: int, m: PrinterMarker) -> bool {
    &&& m.marker_type@ == a.marker_types.unwrap()@[i]@
    &&& m.color@ == a.marker_colors.unwrap()@[i]@
    &&& m.name@ == a.marker_names.unwrap()@[i]@
    &&& m.level == level_of(a.marker_levels.unwrap()@[i])
}

/// The first reason why a printer's values make no queue record, if any.
pub open spec fn attributes_error(a: PrinterAttributes) -> Option<CupsError> {
    match a.state {
        None => Some(CupsError::MissingPrinterState),
        Some(code) => if PrinterState::spec_from_code(code).is_none() {
            Some(CupsError::UnknownPrinterState(code))
        } else if a.job_count.is_none() {
            Some(CupsError::MissingJobCount)
        } else {
            None
        },
    }
}

/// The queue record `q` is the one that the printer's values `a` make.
pub open spec fn record_matches(a: PrinterAttributes, q: IppPrintQueueState) -> bool {
    &&& a.state.is_some() && PrinterState::spec_from_code(a.state.unwrap()) == Some(q.state)
    &&& a.job_count == Some(q.job_count)
    &&& q.queue_name@ == a.queue_name@
    &&& q.description@ == a.description@
    &&& q.printer_make@ == a.printer_make@
    &&& q.state_message@ == a.state_message@
    &&& q.state_reason@ == a.state_reason@
    &&& q.cups_version@ == a.cups_version@
    &&& q.markers@.len() == marker_count(a)
    &&& forall|i: int| 0 <= i < q.markers@.len() ==> #[trigger] marker_matches(a, i, q.markers@[i])
}

/// The supplies that a printer reports, one for each entry of its lists.
pub fn markers_from_attributes(a: &PrinterAttributes) -> (r: Vec<PrinterMarker>)
    ensures
        r@.len() == marker_count(*a),
        forall|i: int| 0 <= i < r@.len() ==> #[trigger] marker_matches(*a, i, r@[i]),
{
    let mut markers: Vec<PrinterMarker> = Vec::new();
    match (&a.marker_types, &a.marker_colors, &a.marker_names, &a.marker_levels) {
        (Some(types), Some(colors), Some(names), Some(levels)) => {
            let n = types.len();
            if colors.len() < n || names.len() < n || levels.len() < n {
                return markers;
            }
            let mut i: usize = 0;
            while i < n
                invariant
                    n == types@.len(),
                    n <= colors@.len(),
                    n <= names@.len(),
                    n <= levels@.len(),
                    a.marker_types == Some(*types),
                    a.marker_colors == Some(*colors),
                    a.marker_names == Some(*names),
                    a.marker_levels == Some(*levels),
                    i <= n,
                    markers@.len() == i,
                    forall|j: int| 0 <= j < i ==> #[trigger] marker_matches(*a, j, markers@[j]),
                decreases n - i,
            {
                let raw_level = levels[i];
                let level = if raw_level < 0 {
                    None
                } else {
                    Some(raw_level as u32)
                };
                markers.push(
                    PrinterMarker {
                        marker_type: types[i].clone(),
                        color: colors[i].clone(),
                        name: names[i].clone(),
                        level,
                    },
                );
                i = i + 1;
            }
            markers
        },
        _ => markers,
    }
}

/// The queue record that a printer's values make: the state must be one of the
/// three known states and the job count must be there.
pub fn queue_state_from_attributes(a: &PrinterAttributes) -> (r: Result<IppPrintQueueState, CupsError>)
    ensures
        match r {
            Ok(q) => attributes_error(*a).is_none() && record_matches(*a, q),
            Err(e) => attributes_error(*a) == Some(e),
        },
{
    let code = match a.state {
        Some(code) => code,
        None => return Err(CupsError::MissingPrinterState),
    };
    let state = match PrinterState::from_code(code) {
        Some(state) => state,
        None => return Err(CupsError::UnknownPrinterState(code)),
    };
    let job_count = match a.job_count {
        Some(n) => n,
        None => return Err(CupsError::MissingJobCount),
    };
    let markers = markers_from_attributes(a);
    Ok(
        IppPrintQueueState {
            queue_name: a.queue_name.clone(),
            description: a.description.clone(),
            printer_make: a.printer_make.clone(),
            state,
            job_count,
            state_message: a.state_message.clone(),
            state_reason: a.state_reason.clone(),
            cups_version: a.cups_version.clone(),
            markers,
        },
    )
}

/// The queue records for the printers of one answer, in order; the first
/// printer whose values make no record decides the error.
pub fn queue_states_from_groups(groups: &Vec<PrinterAttributes>) -> (r: Result<
    Vec<IppPrintQueueState>,
    CupsError,
>)
    ensures
        match r {
            Ok(v) => {
                &&& v@.len() == groups@.len()
                &&& forall|i: int| 0 <= i < groups@.len() ==> attributes_error(#[trigger] groups@[i]).is_none()
                &&& forall|i: int| 0 <= i < groups@.len() ==> record_matches(#[trigger] groups@[i], v@[i])
            },
            Err(e) => exists|i: int|
                0 <= i < groups@.len() && attributes_error(#[trigger] groups@[i]) == Some(e) && forall|j: int|
                    0 <= j < i ==> attributes_error(#[trigger] groups@[j]).is_none(),
        },
{
    let mut out: Vec<IppPrintQueueState> = Vec::new();
    let mut i: usize = 0;
    while i < groups.len()
        invariant
            i <= groups@.len(),
            out@.len() == i,
            forall|j: int| 0 <= j < i ==> attributes_error(#[trigger] groups@[j]).is_none(),
            forall|j: int| 0 <= j < i ==> record_matches(#[trigger] groups@[j], out@[j]),
        decreases groups@.len() - i,
    {
        match queue_state_from_attributes(&groups[i]) {
            Ok(q) => out.push(q),
            Err(e) => {
                assert(attributes_error(groups@[i as int]) == Some(e));
                return Err(e);
            },
        }
        i = i + 1;
    }
    Ok(out)
}

} // verus!
