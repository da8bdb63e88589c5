//! What the exception handler decides before anything is written.

use vstd::prelude::*;

verus! {

/// Code of an exception thrown by the C++ runtime of the observed process.
pub const MSVCXX_EXCEPTION_CODE: u32 = 0xe06d7363;

/// Code of a processor fault that is passed over unrecorded.
pub const SKIPPED_EXCEPTION_CODE: u32 = 1080890248;

/// Magic number of the process's own exception type.
pub const ZEXCEPTION_MAGIC: u32 = 0x19930520;

/// Number of stack frames that a trace lists before it is cut off.
pub const MAX_TRACE_FRAMES: usize = 9;

/// State of the handler: whether the symbols have been loaded.
#[derive(Debug)]
pub struct ExceptionHandler {
    init_sym: bool,
}

impl View for ExceptionHandler {
    type V = bool;

    closed spec fn view(&self) -> bool {
        self.init_sym
    }
}

impl Default for ExceptionHandler {
    /// A handler that has not loaded the symbols yet.
    fn default() -> (handler: Self)
        ensures
            !handler@,
    {
        ExceptionHandler { init_sym: false }
    }
}

impl ExceptionHandler {
    /// A handler that has not loaded the symbols yet.
    pub fn new() -> (handler: Self)
        ensures
            !handler@,
    {
        ExceptionHandler { init_sym: false }
    }

    /// Says whether the symbols are to be loaded for the exception at hand, and
    /// notes that they have been asked for: that is so for the first exception
    /// and for no later one.
    pub fn claim_sym_init(&mut self) -> (load: bool)
        ensures
            load == !old(self)@,
            final(self)@,
    {
        if !self.init_sym {
            self.init_sym = true;
            true
        } else {
            false
        }
    }
}

/// Whether an exception with this code is recorded at all.
pub fn is_recorded(exception_code: u32) -> (recorded: bool)
    ensures
        recorded == (exception_code != SKIPPED_EXCEPTION_CODE),
{
    exception_code != SKIPPED_EXCEPTION_CODE
}

/// Whether an exception record describes a C++ exception: it has the runtime's
/// code and exactly three parameters.
pub fn is_cxx_exception(exception_code: u32, number_parameters: u32) -> (cxx: bool)
    ensures
        cxx == (exception_code == MSVCXX_EXCEPTION_CODE && number_parameters == 3),
{
    exception_code == MSVCXX_EXCEPTION_CODE && number_parameters == 3
}

/// Whether the thrown object of a C++ exception is of the process's own
/// exception type.
pub fn is_zexception(magic: u32) -> (own: bool)
    ensures
        own == (magic == ZEXCEPTION_MAGIC),
{
    magic == ZEXCEPTION_MAGIC
}

/// Number of stack frames that a trace of `walked` frames lists, and whether
/// the cut-off mark follows them.
pub fn listed_frames(walked: usize) -> (listing: (usize, bool))
    ensures
        listing.0 == if walked <= MAX_TRACE_FRAMES {
            walked
        } else {
            MAX_TRACE_FRAMES
        },
        listing.1 == (walked > MAX_TRACE_FRAMES),
{
    if walked > MAX_TRACE_FRAMES {
        (MAX_TRACE_FRAMES, true)
    } else {
        (walked, false)
    }
}

} // verus!
