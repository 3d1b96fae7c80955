//! The flash-mediation syscall driver.
//!
//! A process registers a completion callback and shares a memory region, then
//! issues commands: query a configuration constant, write the shared region
//! to flash, or erase one page. At most one write or erase is outstanding
//! driver-wide; a request arriving while one is in flight is rejected with
//! busy. Hardware work is not performed here: an accepted request yields a
//! [`FlashRequest`] that an unverified runner hands to the hardware, and the
//! completion comes back through [`OpenskSyscall::write_done`] or
//! [`OpenskSyscall::erase_done`], which either issue the next write chunk or
//! finish the operation and say which callback to schedule.

use vstd::prelude::*;

use crate::chunks::{
    chunk_len, chunk_lens, lemma_chunk_len_bounds, lemma_chunks_cover, FLASH_START,
    FLASH_START_WORD, MAX_PAGE_ERASES, MAX_WRITE_LENGTH, MAX_WORD_WRITES, PAGE_SIZE, WEIRD_SIZE,
    WORD_SIZE,
};
use crate::words::words_of;

verus! {

/// Number under which the surrounding kernel registers this driver.
pub const DRIVER_NUM: usize = 0x50003;

/// Synchronous result of a command, and the status a completion carries.
#[derive(Clone, Copy, Debug, PartialEq, Eq, Structural)]
pub enum ReturnCode {
    /// The request was accepted or the query answered.
    Success,
    /// The query answered with a value.
    SuccessWithValue { value: usize },
    /// The per-process record could not be located.
    Fail,
    /// Another operation is outstanding.
    EBusy,
    /// Validation failed.
    EInval,
    /// Unknown command or subscription selector.
    ENoSupport,
}

/// Handle to a process's registered completion notifier. The driver only
/// stores and returns it; scheduling is the runner's business.
#[derive(Clone, Copy, Debug, PartialEq, Eq, Structural)]
pub struct Callback {
    pub id: usize,
}

/// One hardware call the driver asks the runner to perform.
#[derive(Clone, Copy, Debug, PartialEq, Eq, Structural)]
pub enum FlashRequest {
    /// Write the driver's staged words at this word offset (relative to the
    /// flash base). `length` words are staged.
    Write { target: usize, length: usize },
    /// Erase the page with this index (relative to the flash base).
    Erase { page: usize },
}

/// A completion callback to schedule, with the status it carries.
#[derive(Clone, Copy, Debug, PartialEq, Eq, Structural)]
pub struct Notify {
    pub callback: Callback,
    pub status: ReturnCode,
}

/// Per-process capability record.
pub struct App {
    pub callback: Option<Callback>,
    pub slice: Option<Vec<u8>>,
}

/// State of the one in-flight write: the absolute destination word index,
/// the process region being drained, and how many words are already staged
/// or written.
struct WriteState {
    ptr: usize,
    slice: Vec<u8>,
    offset: usize,
}

/// The driver: per-process records, the admission marker, the pending-write
/// state, and the scratch buffer that stages each chunk.
pub struct OpenskSyscall {
    apps: Vec<App>,
    waiting: Option<usize>,
    writing: Option<WriteState>,
    buffer: Vec<u32>,
}

/// Mathematical value of a capability record.
pub struct AppModel {
    pub callback: Option<usize>,
    pub region: Option<Seq<u8>>,
}

/// Mathematical value of the pending-write state.
pub struct WriteModel {
    pub target: int,
    pub region: Seq<u8>,
    pub cursor: int,
}

/// Mathematical value of the whole driver.
pub struct DriverModel {
    pub apps: Seq<AppModel>,
    pub waiting: Option<usize>,
    pub writing: Option<WriteModel>,
    pub staged: Seq<u32>,
}

impl View for App {
    type V = AppModel;

    open spec fn view(&self) -> AppModel {
        AppModel {
            callback: match self.callback {
                Some(c) => Some(c.id),
                None => None,
            },
            region: match self.slice {
                Some(ref v) => Some(v@),
                None => None,
            },
        }
    }
}

impl View for WriteState {
    type V = WriteModel;

    closed spec fn view(&self) -> WriteModel {
        WriteModel { target: self.ptr as int, region: self.slice@, cursor: self.offset as int }
    }
}

impl View for OpenskSyscall {
    type V = DriverModel;

    closed spec fn view(&self) -> DriverModel {
        DriverModel {
            apps: self.apps@.map_values(|a: App| a@),
            waiting: self.waiting,
            writing: match self.writing {
                Some(ref w) => Some(w@),
                None => None,
            },
            staged: self.buffer@,
        }
    }
}

/// A pending write is sound: its region is word-aligned, the cursor lies
/// inside it, and the destination lies at or above the flash base and far
/// enough below the address-space limit that word arithmetic cannot
/// overflow.
pub open spec fn write_state_wf(w: WriteModel) -> bool {
    &&& w.region.len() % 4 == 0
    &&& w.region.len() <= usize::MAX as int
    &&& 0 <= w.cursor <= w.region.len() / 4
    &&& FLASH_START_WORD <= w.target
    &&& w.target <= usize::MAX as int / 4
}

/// Arguments of a write command are acceptable: destination at or above the
/// flash base, destination word-aligned, length word-aligned.
pub open spec fn write_args_ok(ptr: int, len: int) -> bool {
    &&& ptr >= FLASH_START as int
    &&& ptr % (WORD_SIZE as int) == 0
    &&& len % (WORD_SIZE as int) == 0
}

/// Arguments of an erase command are acceptable: length exactly one page,
/// destination at or above the flash base and page-aligned.
pub open spec fn erase_args_ok(ptr: int, len: int) -> bool {
    &&& len == PAGE_SIZE as int
    &&& ptr >= FLASH_START as int
    &&& ptr % (PAGE_SIZE as int) == 0
}

/// A write command from a process with this record is acceptable: the
/// process has shared a region, the request's length equals that region's
/// length, and the destination and length are aligned and in range.
pub open spec fn write_accepted(record: AppModel, ptr: int, len: int) -> bool {
    &&& record.region matches Some(data)
    &&& len == data.len()
    &&& write_args_ok(ptr, len)
}

/// Which callback a finished operation schedules: the one registered by the
/// process holding the admission marker. With no marker, no registered
/// callback, or a record that cannot be located, the status is dropped.
pub open spec fn notify_model(m: DriverModel, status: ReturnCode) -> Option<Notify> {
    match m.waiting {
        None => None,
        Some(appid) => if appid < m.apps.len() && m.apps[appid as int].callback is Some {
            Some(
                (Notify {
                    callback: (Callback { id: m.apps[appid as int].callback->0 }),
                    status,
                }),
            )
        } else {
            None
        },
    }
}

impl OpenskSyscall {
    /// The driver is sound: a pending write exists only while the admission
    /// marker is set — the marker with no pending write means the
    /// outstanding operation is an erase — and the scratch buffer never
    /// exceeds one hardware call.
    pub open spec fn wf(&self) -> bool {
        &&& (self@.writing matches Some(w) ==> write_state_wf(w) && self@.waiting is Some)
        &&& self@.staged.len() <= MAX_WRITE_LENGTH as int
    }

    /// A fresh driver mediating for `num_apps` processes: idle, nothing
    /// registered.
    pub fn new(num_apps: usize) -> (s: Self)
        ensures
            s.wf(),
            s@.apps.len() == num_apps,
            forall|i: int|
                0 <= i < num_apps ==> s@.apps[i] == (AppModel { callback: None, region: None }),
            s@.waiting is None,
            s@.writing is None,
            s@.staged == Seq::<u32>::empty(),
    {
        let mut apps: Vec<App> = Vec::new();
        let mut i: usize = 0;
        while i < num_apps
            invariant
                i <= num_apps,
                apps@.len() == i,
                forall|j: int|
                    0 <= j < i ==> apps@[j]@ == (AppModel { callback: None, region: None }),
            decreases num_apps - i,
        {
            apps.push(App { callback: None, slice: None });
            i = i + 1;
        }
        let s = OpenskSyscall { apps, waiting: None, writing: None, buffer: Vec::new() };
        assert forall|k: int| 0 <= k < num_apps implies s@.apps[k] == (AppModel {
            callback: None,
            region: None,
        }) by {
            assert(s@.apps[k] == s.apps@[k]@);
        }
        s
    }

    /// Registers or replaces the calling process's completion callback
    /// (selector 0); `None` unregisters. Touches only that process's record.
    pub fn subscribe(&mut self, subscribe_num: usize, callback: Option<Callback>, appid: usize) -> (r:
        ReturnCode)
        requires
            old(self).wf(),
        ensures
            final(self).wf(),
            subscribe_num != 0 ==> r == ReturnCode::ENoSupport && final(self)@ == old(self)@,
            subscribe_num == 0 && appid >= old(self)@.apps.len() ==> r == ReturnCode::Fail
                && final(self)@ == old(self)@,
            subscribe_num == 0 && appid < old(self)@.apps.len() ==> {
                &&& r == ReturnCode::Success
                &&& final(self)@.apps == old(self)@.apps.update(
                    appid as int,
                    (AppModel {
                        callback: match callback {
                            Some(c) => Some(c.id),
                            None => None,
                        },
                        region: old(self)@.apps[appid as int].region,
                    }),
                )
                &&& final(self)@.waiting == old(self)@.waiting
                &&& final(self)@.writing == old(self)@.writing
                &&& final(self)@.staged == old(self)@.staged
            },
    {
        if subscribe_num != 0 {
            return ReturnCode::ENoSupport;
        }
        if appid >= self.apps.len() {
            return ReturnCode::Fail;
        }
        self.apps[appid].callback = callback;
        assert(self@.apps =~= old(self)@.apps.update(
            appid as int,
            (AppModel {
                callback: match callback {
                    Some(c) => Some(c.id),
                    None => None,
                },
                region: old(self)@.apps[appid as int].region,
            }),
        ));
        ReturnCode::Success
    }

    /// Registers or replaces the calling process's shared memory region
    /// (selector 0); `None` revokes it. Touches only that process's record.
    pub fn allow(&mut self, appid: usize, allow_num: usize, slice: Option<Vec<u8>>) -> (r:
        ReturnCode)
        requires
            old(self).wf(),
        ensures
            final(self).wf(),
            allow_num != 0 ==> r == ReturnCode::ENoSupport && final(self)@ == old(self)@,
            allow_num == 0 && appid >= old(self)@.apps.len() ==> r == ReturnCode::Fail
                && final(self)@ == old(self)@,
            allow_num == 0 && appid < old(self)@.apps.len() ==> {
                &&& r == ReturnCode::Success
                &&& final(self)@.apps == old(self)@.apps.update(
                    appid as int,
                    (AppModel {
                        callback: old(self)@.apps[appid as int].callback,
                        region: match slice {
                            Some(ref v) => Some(v@),
                            None => None,
                        },
                    }),
                )
                &&& final(self)@.waiting == old(self)@.waiting
                &&& final(self)@.writing == old(self)@.writing
                &&& final(self)@.staged == old(self)@.staged
            },
    {
        if allow_num != 0 {
            return ReturnCode::ENoSupport;
        }
        if appid >= self.apps.len() {
            return ReturnCode::Fail;
        }
        let ghost target_record = AppModel {
            callback: old(self)@.apps[appid as int].callback,
            region: match slice {
                Some(ref v) => Some(v@),
                None => None,
            },
        };
        self.apps[appid].slice = slice;
        assert(self@.apps =~= old(self)@.apps.update(appid as int, target_record));
        ReturnCode::Success
    }

    /// One chunker step: stages the next chunk of `state`'s region in the
    /// scratch buffer, retains the advanced pending-write state, and returns
    /// the hardware write to perform. The chunk starts at the cursor, never
    /// crosses a 64-word boundary, and never exceeds one hardware call.
    fn write_block(&mut self, state: WriteState) -> (req: FlashRequest)
        requires
            old(self).wf(),
            old(self)@.writing is None,
            old(self)@.waiting is Some,
            write_state_wf(state@),
        ensures
            final(self).wf(),
            final(self)@.apps == old(self)@.apps,
            final(self)@.waiting == old(self)@.waiting,
            ({
                let w = state@;
                let c = chunk_len(w.target + w.cursor, w.region.len() / 4 - w.cursor);
                &&& (req matches FlashRequest::Write { target, length } && target == w.target
                    + w.cursor - FLASH_START_WORD && length == c)
                &&& final(self)@.writing == Some(
                    (WriteModel { target: w.target, region: w.region, cursor: w.cursor + c }),
                )
                &&& final(self)@.staged == words_of(w.region).subrange(w.cursor, w.cursor + c)
            }),
    {
        let WriteState { ptr, slice, offset } = state;
        let p = ptr + offset;
        let room = WEIRD_SIZE - p % WEIRD_SIZE;
        let max_length = if room < MAX_WRITE_LENGTH {
            room
        } else {
            MAX_WRITE_LENGTH
        };
        let remaining = slice.len() / WORD_SIZE - offset;
        let data_length = if remaining < max_length {
            remaining
        } else {
            max_length
        };
        assert(data_length == chunk_len(p as int, remaining as int));
        self.buffer.clear();
        let mut i: usize = 0;
        while i < data_length
            invariant
                i <= data_length,
                slice@.len() <= usize::MAX as int,
                slice@.len() % 4 == 0,
                offset + data_length <= slice@.len() / 4,
                self@.apps == old(self)@.apps,
                self@.waiting == old(self)@.waiting,
                self@.writing is None,
                self.buffer@ == words_of(slice@).subrange(offset as int, offset + i),
            decreases data_length - i,
        {
            let base = (offset + i) * WORD_SIZE;
            let w = crate::words::word_from_bytes(
                slice[base],
                slice[base + 1],
                slice[base + 2],
                slice[base + 3],
            );
            assert(w == crate::words::word_at(slice@, offset + i));
            self.buffer.push(w);
            assert(self.buffer@ =~= words_of(slice@).subrange(offset as int, offset + i + 1));
            i = i + 1;
        }
        let target = p - FLASH_START_WORD;
        let new_state = WriteState { ptr, slice, offset: offset + data_length };
        self.writing = Some(new_state);
        FlashRequest::Write { target, length: data_length }
    }

    /// Finalizes the outstanding operation: clears the admission marker and
    /// says which callback, if any, to schedule with `status`. With no
    /// registered callback the status is dropped, by design.
    fn done(&mut self, status: ReturnCode) -> (n: Option<Notify>)
        requires
            old(self).wf(),
            old(self)@.writing is None,
        ensures
            final(self).wf(),
            final(self)@.waiting is None,
            final(self)@.writing is None,
            final(self)@.apps == old(self)@.apps,
            final(self)@.staged == old(self)@.staged,
            n == notify_model(old(self)@, status),
    {
        let w = self.waiting.take();
        match w {
            None => None,
            Some(appid) => {
                if appid < self.apps.len() {
                    match self.apps[appid].callback {
                        Some(cb) => Some(Notify { callback: cb, status }),
                        None => None,
                    }
                } else {
                    None
                }
            },
        }
    }

    /// Dispatches a command from process `appid`.
    ///
    /// Command 0 probes for the driver; command 1 answers a configuration
    /// query; command 2 begins a chunked write of the process's shared
    /// region to flash at byte address `arg0` with byte length `arg1`;
    /// command 3 begins an erase of the one page at byte address `arg0`
    /// with byte length `arg1`. A write or erase is rejected with busy while
    /// an operation is outstanding, and with invalid-argument when
    /// validation fails — in both cases nothing changes and no hardware
    /// request is issued. An accepted request sets the admission marker to
    /// `appid` and returns the hardware call to perform.
    pub fn command(&mut self, cmd: usize, arg0: usize, arg1: usize, appid: usize) -> (r: (
        ReturnCode,
        Option<FlashRequest>,
    ))
        requires
            old(self).wf(),
        ensures
            final(self).wf(),
            cmd == 0 ==> r.0 == ReturnCode::Success && r.1 is None && final(self)@ == old(self)@,
            cmd == 1 ==> {
                &&& r.1 is None
                &&& final(self)@ == old(self)@
                &&& arg0 == 0 ==> r.0 == (ReturnCode::SuccessWithValue { value: WORD_SIZE })
                &&& arg0 == 1 ==> r.0 == (ReturnCode::SuccessWithValue { value: PAGE_SIZE })
                &&& arg0 == 2 ==> r.0 == (ReturnCode::SuccessWithValue { value: MAX_WORD_WRITES })
                &&& arg0 == 3 ==> r.0 == (ReturnCode::SuccessWithValue { value: MAX_PAGE_ERASES })
                &&& arg0 > 3 ==> r.0 == ReturnCode::EInval
            },
            cmd == 2 && appid >= old(self)@.apps.len() ==> r.0 == ReturnCode::Fail && r.1 is None
                && final(self)@ == old(self)@,
            cmd == 2 && appid < old(self)@.apps.len() && old(self)@.waiting is Some ==> r.0
                == ReturnCode::EBusy && r.1 is None && final(self)@ == old(self)@,
            cmd == 2 && appid < old(self)@.apps.len() && old(self)@.waiting is None
                && !write_accepted(old(self)@.apps[appid as int], arg0 as int, arg1 as int) ==> r.0
                == ReturnCode::EInval && r.1 is None && final(self)@ == old(self)@,
            cmd == 2 && appid < old(self)@.apps.len() && old(self)@.waiting is None
                && write_accepted(old(self)@.apps[appid as int], arg0 as int, arg1 as int) ==> {
                let data = old(self)@.apps[appid as int].region->0;
                let c = chunk_len(arg0 as int / 4, arg1 as int / 4);
                &&& r.0 == ReturnCode::Success
                &&& (r.1 matches Some(FlashRequest::Write { target, length }) && target == arg0
                    / 4 - FLASH_START_WORD && length == c)
                &&& final(self)@.waiting == Some(appid)
                &&& final(self)@.writing == Some(
                    (WriteModel { target: arg0 as int / 4, region: data, cursor: c }),
                )
                &&& final(self)@.staged == words_of(data).subrange(0, c)
                &&& final(self)@.apps == old(self)@.apps.update(
                    appid as int,
                    (AppModel { callback: old(self)@.apps[appid as int].callback, region: None }),
                )
            },
            cmd == 3 && old(self)@.waiting is Some ==> r.0 == ReturnCode::EBusy && r.1 is None
                && final(self)@ == old(self)@,
            cmd == 3 && old(self)@.waiting is None && !erase_args_ok(arg0 as int, arg1 as int)
                ==> r.0 == ReturnCode::EInval && r.1 is None && final(self)@ == old(self)@,
            cmd == 3 && old(self)@.waiting is None && erase_args_ok(arg0 as int, arg1 as int)
                ==> {
                &&& r.0 == ReturnCode::Success
                &&& (r.1 matches Some(FlashRequest::Erase { page }) && page == (arg0 as int
                    - FLASH_START as int) / (PAGE_SIZE as int))
                &&& final(self)@.waiting == Some(appid)
                &&& final(self)@.writing == old(self)@.writing
                &&& final(self)@.apps == old(self)@.apps
                &&& final(self)@.staged == old(self)@.staged
            },
            cmd > 3 ==> r.0 == ReturnCode::ENoSupport && r.1 is None
                && final(self)@ == old(self)@,
    {
        if cmd == 0 {
            return (ReturnCode::Success, None);
        }
        if cmd == 1 {
            let code = if arg0 == 0 {
                ReturnCode::SuccessWithValue { value: WORD_SIZE }
            } else if arg0 == 1 {
                ReturnCode::SuccessWithValue { value: PAGE_SIZE }
            } else if arg0 == 2 {
                ReturnCode::SuccessWithValue { value: MAX_WORD_WRITES }
            } else if arg0 == 3 {
                ReturnCode::SuccessWithValue { value: MAX_PAGE_ERASES }
            } else {
                ReturnCode::EInval
            };
            return (code, None);
        }
        if cmd == 2 {
            if appid >= self.apps.len() {
                return (ReturnCode::Fail, None);
            }
            if self.waiting.is_some() {
                return (ReturnCode::EBusy, None);
            }
            let region_len = match self.apps[appid].slice.as_ref() {
                Some(s) => s.len(),
                None => {
                    return (ReturnCode::EInval, None);
                },
            };
            if arg1 != region_len {
                return (ReturnCode::EInval, None);
            }
            if arg0 < FLASH_START || arg0 % WORD_SIZE != 0 || arg1 % WORD_SIZE != 0 {
                return (ReturnCode::EInval, None);
            }
            let ghost taken_record = AppModel {
                callback: old(self)@.apps[appid as int].callback,
                region: None,
            };
            let slice = self.apps[appid].slice.take().unwrap();
            assert(self@.apps =~= old(self)@.apps.update(appid as int, taken_record));
            self.waiting = Some(appid);
            let req = self.write_slice(arg0, slice);
            return (ReturnCode::Success, Some(req));
        }
        if cmd == 3 {
            if self.waiting.is_some() {
                return (ReturnCode::EBusy, None);
            }
            if arg1 != PAGE_SIZE || arg0 < FLASH_START || arg0 % PAGE_SIZE != 0 {
                return (ReturnCode::EInval, None);
            }
            self.waiting = Some(appid);
            let req = self.erase_page(arg0);
            return (ReturnCode::Success, Some(req));
        }
        (ReturnCode::ENoSupport, None)
    }

    /// Begins the chunked write of `slice` to byte address `ptr`, whose
    /// alignment and base the caller has validated, by staging and issuing
    /// the first chunk. The admission marker is already held.
    fn write_slice(&mut self, ptr: usize, slice: Vec<u8>) -> (req: FlashRequest)
        requires
            old(self).wf(),
            old(self)@.writing is None,
            old(self)@.waiting is Some,
            write_args_ok(ptr as int, slice@.len() as int),
        ensures
            final(self).wf(),
            final(self)@.apps == old(self)@.apps,
            final(self)@.waiting == old(self)@.waiting,
            ({
                let c = chunk_len(ptr as int / 4, slice@.len() as int / 4);
                &&& (req matches FlashRequest::Write { target, length } && target == ptr as int
                    / 4 - FLASH_START_WORD && length == c)
                &&& final(self)@.writing == Some(
                    (WriteModel { target: ptr as int / 4, region: slice@, cursor: c }),
                )
                &&& final(self)@.staged == words_of(slice@).subrange(0, c)
            }),
    {
        proof {
            vstd::std_specs::vec::axiom_spec_len(&slice);
        }
        self.write_block(WriteState { ptr: ptr / WORD_SIZE, slice, offset: 0 })
    }

    /// Translates the page-aligned byte address `ptr`, which the caller has
    /// validated, to the index of the one page to erase. The admission
    /// marker is already held.
    fn erase_page(&self, ptr: usize) -> (req: FlashRequest)
        requires
            ptr >= FLASH_START,
            ptr as int % (PAGE_SIZE as int) == 0,
        ensures
            (req matches FlashRequest::Erase { page } && page == (ptr as int - FLASH_START as int)
                / (PAGE_SIZE as int)),
    {
        let page = (ptr - FLASH_START) / PAGE_SIZE;
        FlashRequest::Erase { page }
    }

    /// Routes a write-chunk completion. On success with words still to
    /// write, issues the next chunk; on a failure or once the region is
    /// exhausted, finalizes the operation and says which callback to
    /// schedule with `status`. A write completion may only arrive while a
    /// pending write exists.
    pub fn write_done(&mut self, status: ReturnCode) -> (r: (Option<FlashRequest>, Option<Notify>))
        requires
            old(self).wf(),
            old(self)@.writing is Some,
        ensures
            final(self).wf(),
            final(self)@.apps == old(self)@.apps,
            ({
                let w = old(self)@.writing->0;
                let total = w.region.len() / 4;
                if status != ReturnCode::Success || w.cursor == total {
                    &&& r.0 is None
                    &&& r.1 == notify_model(old(self)@, status)
                    &&& final(self)@.waiting is None
                    &&& final(self)@.writing is None
                    &&& final(self)@.staged == old(self)@.staged
                } else {
                    let c = chunk_len(w.target + w.cursor, total - w.cursor);
                    &&& r.1 is None
                    &&& (r.0 matches Some(FlashRequest::Write { target, length }) && target
                        == w.target + w.cursor - FLASH_START_WORD && length == c)
                    &&& final(self)@.waiting == old(self)@.waiting
                    &&& final(self)@.writing == Some(
                        (WriteModel { target: w.target, region: w.region, cursor: w.cursor + c }),
                    )
                    &&& final(self)@.staged == words_of(w.region).subrange(w.cursor, w.cursor + c)
                }
            }),
    {
        let state = self.writing.take().unwrap();
        if status != ReturnCode::Success || state.offset == state.slice.len() / WORD_SIZE {
            let n = self.done(status);
            (None, n)
        } else {
            let req = self.write_block(state);
            (Some(req), None)
        }
    }

    /// Routes an erase completion: finalizes the operation and says which
    /// callback, if any, to schedule with `status`. An erase completion may
    /// only arrive while no pending write exists.
    pub fn erase_done(&mut self, status: ReturnCode) -> (n: Option<Notify>)
        requires
            old(self).wf(),
            old(self)@.writing is None,
        ensures
            final(self).wf(),
            final(self)@.waiting is None,
            final(self)@.writing is None,
            final(self)@.apps == old(self)@.apps,
            final(self)@.staged == old(self)@.staged,
            n == notify_model(old(self)@, status),
    {
        self.done(status)
    }

    /// Drives the pending write through all its completions, taking the
    /// status of each successive chunk from `statuses`, and returns how many
    /// chunk completions the request consumed together with the terminal
    /// notification.
    ///
    /// This is the whole-request law of the chunker. `statuses` holds one
    /// status per chunk of the plan — the chunk in flight and one for each
    /// entry of `chunk_lens` over the words still to write. Every consumed
    /// status but the last was a success; the single terminal callback
    /// carries the last consumed status; and that status is a success
    /// exactly when the request consumed the whole plan — so the callback
    /// reports success when every chunk succeeded, and the first failure
    /// stops the write and is what the callback carries.
    pub fn drive_write(&mut self, statuses: &Vec<ReturnCode>) -> (r: (usize, Option<Notify>))
        requires
            old(self).wf(),
            old(self)@.writing is Some,
            statuses@.len() == 1 + chunk_lens(
                old(self)@.writing->0.target + old(self)@.writing->0.cursor,
                old(self)@.writing->0.region.len() / 4 - old(self)@.writing->0.cursor,
            ).len(),
        ensures
            final(self).wf(),
            final(self)@.waiting is None,
            final(self)@.writing is None,
            final(self)@.apps == old(self)@.apps,
            1 <= r.0 <= statuses@.len(),
            forall|j: int| 0 <= j < r.0 - 1 ==> statuses@[j] == ReturnCode::Success,
            r.1 == notify_model(old(self)@, statuses@[r.0 - 1]),
            (r.0 == statuses@.len() && statuses@[r.0 - 1] == ReturnCode::Success) || statuses@[r.0
                - 1] != ReturnCode::Success,
    {
        let ghost w0 = old(self)@.writing->0;
        let ghost total0 = w0.region.len() / 4;
        let n_chunks = statuses.len();
        let mut k: usize = 0;
        let mut result: Option<Notify> = None;
        loop
            invariant_except_break
                self.wf(),
                self@.writing is Some,
                self@.apps == old(self)@.apps,
                self@.waiting == old(self)@.waiting,
                total0 == w0.region.len() / 4,
                ({
                    let w = self@.writing->0;
                    &&& w.target == w0.target
                    &&& w.region == w0.region
                    &&& 1 + chunk_lens(w.target + w.cursor, total0 - w.cursor).len() == n_chunks
                        - k
                }),
                0 <= k < n_chunks,
                statuses@.len() == n_chunks,
                forall|j: int| 0 <= j < k ==> statuses@[j] == ReturnCode::Success,
            ensures
                self.wf(),
                self@.waiting is None,
                self@.writing is None,
                self@.apps == old(self)@.apps,
                1 <= k <= n_chunks,
                forall|j: int| 0 <= j < k - 1 ==> statuses@[j] == ReturnCode::Success,
                result == notify_model(old(self)@, statuses@[k - 1]),
                (k == n_chunks && statuses@[k - 1] == ReturnCode::Success) || statuses@[k - 1]
                    != ReturnCode::Success,
            decreases n_chunks - k,
        {
            let ghost w = self@.writing->0;
            let ghost rem = total0 - w.cursor;
            let status = statuses[k];
            k = k + 1;
            proof {
                lemma_chunks_cover(w.target + w.cursor, rem);
                if rem > 0 {
                    lemma_chunk_len_bounds(w.target + w.cursor, rem);
                }
            }
            let (next, notify) = self.write_done(status);
            if next.is_none() {
                result = notify;
                break;
            }
        }
        (k, result)
    }

    /// Whether a write or erase is outstanding.
    pub fn is_busy(&self) -> (b: bool)
        ensures
            b == (self@.waiting is Some),
    {
        self.waiting.is_some()
    }

    /// The process holding the outstanding operation, if any.
    pub fn current_owner(&self) -> (o: Option<usize>)
        ensures
            o == self@.waiting,
    {
        self.waiting
    }

    /// Absolute destination word index of the pending write, if one exists.
    pub fn pending_target(&self) -> (t: Option<usize>)
        ensures
            self@.writing matches Some(w) ==> t == Some(w.target as usize),
            self@.writing is None ==> t is None,
    {
        match &self.writing {
            Some(w) => Some(w.ptr),
            None => None,
        }
    }

    /// Words of the pending write already staged or written, if one exists.
    pub fn pending_cursor(&self) -> (c: Option<usize>)
        ensures
            self@.writing matches Some(w) ==> c == Some(w.cursor as usize),
            self@.writing is None ==> c is None,
    {
        match &self.writing {
            Some(w) => Some(w.offset),
            None => None,
        }
    }

    /// Byte length of the region the pending write is draining, if one
    /// exists.
    pub fn pending_region_len(&self) -> (l: Option<usize>)
        ensures
            self@.writing matches Some(w) ==> l == Some(w.region.len() as usize),
            self@.writing is None ==> l is None,
    {
        match &self.writing {
            Some(w) => Some(w.slice.len()),
            None => None,
        }
    }

    /// The words staged for the current hardware write call.
    pub fn staged_words(&self) -> (w: &Vec<u32>)
        ensures
            w@ == self@.staged,
    {
        &self.buffer
    }
}

} // verus!
