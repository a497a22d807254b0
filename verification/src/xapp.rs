//! The state behind the window: what the operator has typed, what it
//! validates to, and the sampler that the table is drawn from.

use vstd::prelude::*;
use vstd::string::*;
use crate::address::{
    has_address_shape,
    is_address_text,
    looks_like_address,
    parse_address,
    validate_address,
    ParsedAddress,
};
use crate::decoder::{decode_rows, row_at, ByteOrder, TableRow};
use crate::sampler::{
    transfers_made,
    MemorySampler,
    SampleError,
    SampleOutcome,
    SampleRequest,
    SamplerModel,
    DEFAULT_MIN_INTERVAL,
    MAX_ROWS,
};
use crate::target::{is_target_text, ProcessTarget};

verus! {

/// Number of rows shown until the operator asks for another.
pub const DEFAULT_ROWS: usize = 10;

/// A number of rows that the table may have: from 1 to [`MAX_ROWS`].
#[derive(Clone, Copy, Debug, PartialEq, Eq)]
pub struct RowCount {
    rows: usize,
}

/// State of the memory examiner.
pub struct XApp {
    memory_address: String,
    start_address: Option<ParsedAddress>,
    validation_message: String,
    num_addresses: RowCount,
    pid: Option<String>,
    sampler: MemorySampler,
    show_attach_popup: bool,
    popup_pid: String,
}

/// The examiner's state as a value.
#[verifier::ext_equal]
pub struct XAppModel {
    pub memory_address: Seq<char>,
    pub start_address: Option<ParsedAddress>,
    pub validation_message: Seq<char>,
    pub num_addresses: usize,
    pub pid: Option<Seq<char>>,
    pub sampler: SamplerModel,
    pub show_attach_popup: bool,
    pub popup_pid: Seq<char>,
}

/// The message shown under the address field for the text `s`.
pub open spec fn validation_text(s: Seq<char>) -> Seq<char> {
    if !has_address_shape(s) {
        "Invalid memory address format"@
    } else if is_address_text(s) {
        "Valid memory address"@
    } else {
        "Invalid memory address"@
    }
}

/// The address that the text `s` stands for, if it stands for one.
pub open spec fn address_of(s: Seq<char>) -> Option<ParsedAddress> {
    match parse_address(s) {
        Ok(address) => Some(address),
        Err(_) => None,
    }
}

/// The row count that a wish for `wanted` rows is held to.
pub open spec fn clamp_rows(wanted: usize) -> usize {
    if wanted < 1 {
        1
    } else if wanted > MAX_ROWS {
        MAX_ROWS
    } else {
        wanted
    }
}

impl XAppModel {
    /// The state the examiner starts in, on a machine of the given byte
    /// order: an example address not yet validated, ten rows, no process,
    /// an empty buffer, and a clock that read zero when the state was made.
    pub open spec fn initial(order: ByteOrder) -> XAppModel {
        XAppModel {
            memory_address: "0xD34DB33F0"@,
            start_address: None,
            validation_message: Seq::<char>::empty(),
            num_addresses: DEFAULT_ROWS,
            pid: None,
            sampler: SamplerModel {
                last_successful_read: 0,
                min_interval: DEFAULT_MIN_INTERVAL,
                bytes: Seq::<u8>::empty(),
                order,
            },
            show_attach_popup: false,
            popup_pid: Seq::<char>::empty(),
        }
    }

    /// The state after the address text has been validated afresh: the
    /// address is the one the text stands for, or none, never a stale one.
    pub open spec fn validated(self) -> XAppModel {
        XAppModel {
            start_address: address_of(self.memory_address),
            validation_message: validation_text(self.memory_address),
            ..self
        }
    }

    /// The state after the attach dialog has been confirmed: empty text
    /// detaches, any other text becomes the process text; the dialog closes.
    pub open spec fn attached(self) -> XAppModel {
        XAppModel {
            pid: if self.popup_pid.len() == 0 {
                None
            } else {
                Some(self.popup_pid)
            },
            show_attach_popup: false,
            ..self
        }
    }

    /// Whether process text is set that names no process.
    pub open spec fn target_is_invalid(self) -> bool {
        self.pid matches Some(text) && !is_target_text(text)
    }

    /// Whether process text is set and names a process.
    pub open spec fn target_is_valid(self) -> bool {
        self.pid matches Some(text) && is_target_text(text)
    }

    /// This state with another sampler.
    pub open spec fn with_sampler(self, sampler: SamplerModel) -> XAppModel {
        XAppModel { sampler, ..self }
    }

    /// Whether a tick at `now` may take this state to `after` with the
    /// result `r`.
    ///
    /// All but the sampler is settled by validation. The result is settled
    /// too, unless a transfer is made: that happens exactly when the address
    /// is valid, the process text names a process and a read is due, and then
    /// the sampler is either refreshed as a whole, with as many bytes as the
    /// rows take, or emptied.
    pub open spec fn updates_to(
        self,
        now: u64,
        after: XAppModel,
        r: Option<Result<SampleOutcome, SampleError>>,
    ) -> bool {
        let checked = self.validated();
        &&& after.with_sampler(checked.sampler) == checked
        &&& if checked.start_address is None {
            r is None && after == checked
        } else if checked.target_is_invalid() {
            r == Some(Err::<SampleOutcome, SampleError>(SampleError::InvalidTarget)) && after
                == checked
        } else if checked.pid is None {
            r == Some(Err::<SampleOutcome, SampleError>(SampleError::NoTarget)) && after == checked
        } else if !checked.sampler.due(now) {
            r == Some(Ok::<SampleOutcome, SampleError>(SampleOutcome::Throttled)) && after
                == checked
        } else {
            &&& r is Some
            &&& transfers_made(r->0) == 1
            &&& r->0 is Ok ==> after.sampler == checked.sampler.refreshed(now, after.sampler.bytes)
                && after.sampler.bytes.len() == 4 * checked.num_addresses
            &&& r->0 is Err ==> after.sampler == checked.sampler.cleared()
        }
    }
}

impl RowCount {
    #[verifier::type_invariant]
    spec fn in_range(self) -> bool {
        1 <= self.rows <= MAX_ROWS
    }

    /// The number of rows.
    pub closed spec fn value(self) -> usize {
        self.rows
    }

    /// The count nearest to `wanted` that a table may have.
    pub fn clamped(wanted: usize) -> (count: RowCount)
        ensures
            count.value() == clamp_rows(wanted),
    {
        let rows: usize = if wanted < 1 {
            1
        } else if wanted > MAX_ROWS {
            MAX_ROWS
        } else {
            wanted
        };
        RowCount { rows }
    }

    /// The number of rows.
    pub fn get(&self) -> (rows: usize)
        ensures
            rows == self.value(),
            1 <= rows <= MAX_ROWS,
    {
        proof {
            use_type_invariant(self);
        }
        self.rows
    }
}

impl View for XApp {
    type V = XAppModel;

    closed spec fn view(&self) -> XAppModel {
        XAppModel {
            memory_address: self.memory_address@,
            start_address: self.start_address,
            validation_message: self.validation_message@,
            num_addresses: self.num_addresses.value(),
            pid: match self.pid {
                Some(text) => Some(text@),
                None => None,
            },
            sampler: self.sampler@,
            show_attach_popup: self.show_attach_popup,
            popup_pid: self.popup_pid@,
        }
    }
}

impl Default for XApp {
    /// The starting state on this machine.
    fn default() -> (app: XApp)
        ensures
            app@ == XAppModel::initial(app@.sampler.order),
    {
        XApp::with_sampler(ByteOrder::native(), DEFAULT_MIN_INTERVAL)
    }
}

impl XApp {
    /// The starting state on this machine.
    pub fn new() -> (app: XApp)
        ensures
            app@ == XAppModel::initial(app@.sampler.order),
    {
        XApp::with_sampler(ByteOrder::native(), DEFAULT_MIN_INTERVAL)
    }

    /// The starting state with a given byte order and polling interval.
    pub fn with_sampler(order: ByteOrder, min_interval: u64) -> (app: XApp)
        ensures
            app@ == XAppModel::initial(order).with_sampler(
                SamplerModel { min_interval, ..XAppModel::initial(order).sampler },
            ),
    {
        XApp {
            memory_address: String::from_str("0xD34DB33F0"),
            start_address: None,
            validation_message: String::new(),
            num_addresses: RowCount::clamped(DEFAULT_ROWS),
            pid: None,
            sampler: MemorySampler::new(0, min_interval, order),
            show_attach_popup: false,
            popup_pid: String::new(),
        }
    }

    /// Validates the address text as it stands now.
    ///
    /// Valid text sets the address; any other text discards the address
    /// that an earlier text gave. The message says which it was.
    pub fn validate(&mut self)
        ensures
            final(self)@ == old(self)@.validated(),
    {
        if looks_like_address(self.memory_address.as_str()) {
            match validate_address(self.memory_address.as_str()) {
                Ok(address) => {
                    self.start_address = Some(address);
                    self.validation_message = String::from_str("Valid memory address");
                },
                Err(_) => {
                    self.start_address = None;
                    self.validation_message = String::from_str("Invalid memory address");
                },
            }
        } else {
            self.start_address = None;
            self.validation_message = String::from_str("Invalid memory address format");
        }
    }

    /// Confirms the attach dialog: its text becomes the process text, or no
    /// process is set if it is empty, and the dialog closes.
    pub fn confirm_attach(&mut self)
        ensures
            final(self)@ == old(self)@.attached(),
    {
        if self.popup_pid.as_str().unicode_len() == 0 {
            self.pid = None;
        } else {
            self.pid = Some(self.popup_pid.clone());
        }
        self.show_attach_popup = false;
    }

    /// One tick: validates the address text, then samples if it can.
    ///
    /// Without a valid address nothing more happens and `None` is returned.
    /// With one, the result is `Some`: `InvalidTarget` if process text is set
    /// and names no process, else what the sampler returns for the requested
    /// range, the process and `now`. The sampler changes only through a
    /// transfer: its buffer is replaced as a whole by one that succeeds and
    /// emptied by one that fails.
    pub fn update(&mut self, now: u64) -> (r: Option<Result<SampleOutcome, SampleError>>)
        ensures
            old(self)@.updates_to(now, final(self)@, r),
    {
        self.validate();
        let address: ParsedAddress = match self.start_address {
            Some(address) => address,
            None => {
                return None;
            },
        };
        let target = match &self.pid {
            None => None,
            Some(text) => {
                match ProcessTarget::parse(text.as_str()) {
                    Ok(process) => Some(process),
                    Err(refusal) => {
                        return Some(Err(refusal));
                    },
                }
            },
        };
        let request = SampleRequest::new(address, self.num_addresses.get()).unwrap();
        Some(self.sampler.maybe_sample(target, request, now))
    }

    /// The table as it stands: one row per requested element from the valid
    /// address on, or no rows while there is no valid address.
    pub fn rows(&self) -> (rows: Vec<TableRow>)
        ensures
            self@.start_address is None ==> rows@.len() == 0,
            self@.start_address matches Some(base) ==> rows@.len() == self@.num_addresses
                && forall|i: int|
                0 <= i < rows@.len() ==> #[trigger] rows@[i] == row_at(
                    self@.sampler.bytes,
                    self@.sampler.order,
                    base,
                    i,
                ),
    {
        match self.start_address {
            Some(base) => decode_rows(self.sampler.buffer(), base, self.num_addresses.get()),
            None => Vec::new(),
        }
    }

    /// Replaces the address text. The address it stands for is found at the
    /// next validation.
    pub fn set_memory_address(&mut self, text: String)
        ensures
            final(self)@ == (XAppModel { memory_address: text@, ..old(self)@ }),
    {
        self.memory_address = text;
    }

    /// Sets the number of rows, held to the range from 1 to [`MAX_ROWS`].
    pub fn set_num_addresses(&mut self, wanted: usize)
        ensures
            final(self)@ == (XAppModel { num_addresses: clamp_rows(wanted), ..old(self)@ }),
    {
        self.num_addresses = RowCount::clamped(wanted);
    }

    /// Replaces the text of the attach dialog.
    pub fn set_popup_pid(&mut self, text: String)
        ensures
            final(self)@ == (XAppModel { popup_pid: text@, ..old(self)@ }),
    {
        self.popup_pid = text;
    }

    /// Opens the attach dialog.
    pub fn open_attach_popup(&mut self)
        ensures
            final(self)@ == (XAppModel { show_attach_popup: true, ..old(self)@ }),
    {
        self.show_attach_popup = true;
    }

    /// The address text.
    pub fn memory_address(&self) -> (text: &String)
        ensures
            text@ == self@.memory_address,
    {
        &self.memory_address
    }

    /// The address that the text stood for at the last validation.
    pub fn start_address(&self) -> (address: Option<ParsedAddress>)
        ensures
            address == self@.start_address,
    {
        self.start_address
    }

    /// The message of the last validation.
    pub fn validation_message(&self) -> (text: &String)
        ensures
            text@ == self@.validation_message,
    {
        &self.validation_message
    }

    /// The number of rows.
    pub fn num_addresses(&self) -> (count: usize)
        ensures
            count == self@.num_addresses,
            1 <= count <= MAX_ROWS,
    {
        self.num_addresses.get()
    }

    /// The process text, if a process is set.
    pub fn pid(&self) -> (text: Option<&String>)
        ensures
            text is Some <==> self@.pid is Some,
            text matches Some(t) ==> t@ == self@.pid->0,
    {
        self.pid.as_ref()
    }

    /// The sampler.
    pub fn sampler(&self) -> (sampler: &MemorySampler)
        ensures
            sampler@ == self@.sampler,
    {
        &self.sampler
    }

    /// Whether the attach dialog is open.
    pub fn show_attach_popup(&self) -> (open: bool)
        ensures
            open == self@.show_attach_popup,
    {
        self.show_attach_popup
    }

    /// The text of the attach dialog.
    pub fn popup_pid(&self) -> (text: &String)
        ensures
            text@ == self@.popup_pid,
    {
        &self.popup_pid
    }
}

} // verus!
