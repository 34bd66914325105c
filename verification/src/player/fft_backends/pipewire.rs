//! Samples captured through PipeWire.
//!
//! A capture thread takes the channels of a stream apart and writes two of them
//! into ring buffers. Another thread reads the latest samples out of these at
//! its own pace. Samples are handled as the bit patterns of 32-bit floats.
use crate::player::fft_backends::backend::FftStatus;
use crate::player::fft_backends::ring::{
    at_ring, fill_ring, new_ring, push_ring, ring, ring_capacity,
};
use crate::text::{same, views};
use ringbuffer::AllocRingBuffer;
use vstd::prelude::*;

verus! {

/// A parameter with its value.
#[derive(Debug)]
pub enum ParamValue {
    Devices(Vec<String>),
    CurrentDevice(i32),
}

/// A parameter that has changed.
#[derive(Clone, Copy, Debug, PartialEq, Eq, Structural)]
pub enum ParamChange {
    Devices,
    CurrentDevice(i32),
}

/// The state of the sample source.
#[derive(Debug)]
pub struct PipeWireFftBackend {
    pub devices: Vec<String>,
    /// Position of the device in use, or -1 if there is none.
    pub curr_device: i32,
    /// The capture thread has been started and not been waited for.
    pub pw_running: bool,
    /// There is a way to tell the capture thread to end.
    pub pw_sender: bool,
    /// The analysis thread has been started and not been waited for.
    pub fft_running: bool,
    pub stop_flag: bool,
    pub status: FftStatus,
}

/// A name that a parameter has.
pub open spec fn is_param(key: Seq<char>) -> bool {
    key == "devices"@ || key == "current-device"@
}

/// Whether a parameter has this name.
pub fn has_param(key: &str) -> (r: bool)
    ensures
        r == is_param(key@),
{
    same(key, "devices") || same(key, "current-device")
}

impl PipeWireFftBackend {
    /// All but the devices is the same.
    pub open spec fn same_run(self, other: Self) -> bool {
        &&& self.pw_running == other.pw_running
        &&& self.pw_sender == other.pw_sender
        &&& self.fft_running == other.fft_running
        &&& self.stop_flag == other.stop_flag
        &&& self.status == other.status
    }

    /// A source that has not been started, for a player of that status. The
    /// status is the player's, and stays as it was.
    pub fn new(status: FftStatus) -> (r: PipeWireFftBackend)
        ensures
            r.devices@.len() == 0,
            r.curr_device == 0,
            !r.pw_running && !r.pw_sender && !r.fft_running && !r.stop_flag,
            r.status == status,
    {
        PipeWireFftBackend {
            devices: Vec::new(),
            curr_device: 0,
            pw_running: false,
            pw_sender: false,
            fft_running: false,
            stop_flag: false,
            status,
        }
    }

    /// The value of a parameter.
    pub fn get_param(&self, key: &str) -> (r: ParamValue)
        requires
            is_param(key@),
        ensures
            match r {
                ParamValue::Devices(devices) => key@ == "devices"@ && views(devices@) == views(
                    self.devices@,
                ),
                ParamValue::CurrentDevice(idx) => key@ == "current-device"@ && idx
                    == self.curr_device,
            },
    {
        if same(key, "devices") {
            let mut devices: Vec<String> = Vec::new();
            for i in 0..self.devices.len()
                invariant
                    devices.len() == i,
                    forall|j: int| 0 <= j < i ==> #[trigger] devices@[j] == self.devices@[j],
            {
                devices.push(self.devices[i].clone());
            }
            assert(views(devices@) =~= views(self.devices@));
            ParamValue::Devices(devices)
        } else {
            ParamValue::CurrentDevice(self.curr_device)
        }
    }

    /// Sets a parameter, and returns what has changed by it. A value of another
    /// kind than the parameter's is ignored. With a new list of devices the
    /// first one is in use; a device beyond the list is the last one.
    pub fn set_param(&mut self, key: &str, val: ParamValue) -> (r: Vec<ParamChange>)
        requires
            is_param(key@),
            old(self).devices.len() <= i32::MAX,
            val matches ParamValue::Devices(devices) ==> devices.len() <= i32::MAX,
        ensures
            final(self).same_run(*old(self)),
            match val {
                ParamValue::Devices(devices) => if key@ == "devices"@ {
                    &&& final(self).devices == devices
                    &&& final(self).curr_device == (if devices@.len() > 0 { 0int } else { -1int })
                    &&& r@ == (if devices@.len() > 0 {
                        seq![ParamChange::Devices]
                    } else {
                        seq![ParamChange::Devices, ParamChange::CurrentDevice(final(self).curr_device)]
                    })
                } else {
                    *final(self) == *old(self) && r@.len() == 0
                },
                ParamValue::CurrentDevice(idx) => if key@ == "current-device"@ {
                    &&& final(self).devices == old(self).devices
                    &&& final(self).curr_device == (if idx < old(self).devices.len() {
                        idx as int
                    } else {
                        old(self).devices.len() - 1
                    })
                    &&& r@ == seq![ParamChange::CurrentDevice(final(self).curr_device)]
                } else {
                    *final(self) == *old(self) && r@.len() == 0
                },
            },
            r@.len() > 0 ==> final(self).curr_device < final(self).devices.len(),
    {
        proof {
            reveal_strlit("devices");
            reveal_strlit("current-device");
            assert("devices"@.len() != "current-device"@.len());
        }
        let mut changes: Vec<ParamChange> = Vec::new();
        let for_devices: bool = same(key, "devices");
        match val {
            ParamValue::Devices(devices) => {
                if for_devices {
                    let new_len: i32 = devices.len() as i32;
                    self.devices = devices;
                    self.curr_device = 0;
                    changes.push(ParamChange::Devices);
                    if self.curr_device >= new_len {
                        let new_val: i32 = new_len - 1;
                        self.curr_device = new_val;
                        changes.push(ParamChange::CurrentDevice(new_val));
                        assert(changes@ =~= seq![
                            ParamChange::Devices,
                            ParamChange::CurrentDevice(new_val),
                        ]);
                    } else {
                        assert(changes@ =~= seq![ParamChange::Devices]);
                    }
                }
            },
            ParamValue::CurrentDevice(new_idx) => {
                if !for_devices {
                    let max_idx: i32 = self.devices.len() as i32 - 1;
                    let final_val: i32 = if max_idx < new_idx {
                        max_idx
                    } else {
                        new_idx
                    };
                    self.curr_device = final_val;
                    changes.push(ParamChange::CurrentDevice(final_val));
                    assert(changes@ =~= seq![ParamChange::CurrentDevice(final_val)]);
                }
            },
        }
        changes
    }

    /// Starts both threads, unless one of them still runs. Either way they are
    /// no longer asked to stop.
    pub fn start(&mut self) -> (r: Result<(), ()>)
        ensures
            final(self).devices == old(self).devices,
            final(self).curr_device == old(self).curr_device,
            !final(self).stop_flag,
            match r {
                Ok(_) => {
                    &&& !old(self).pw_running && !old(self).fft_running
                    &&& final(self).pw_running && final(self).pw_sender && final(self).fft_running
                    &&& final(self).status == FftStatus::Reading
                },
                Err(_) => {
                    &&& old(self).pw_running || old(self).fft_running
                    &&& final(self).pw_running == old(self).pw_running
                    &&& final(self).pw_sender == old(self).pw_sender
                    &&& final(self).fft_running == old(self).fft_running
                    &&& final(self).status == old(self).status
                },
            },
    {
        self.stop_flag = false;
        if !self.pw_running && !self.fft_running {
            self.pw_sender = true;
            self.pw_running = true;
            self.fft_running = true;
            self.status = FftStatus::Reading;
            Ok(())
        } else {
            Err(())
        }
    }

    /// Stops both threads. `told` says whether the capture thread could be told
    /// to end; only then are the threads waited for.
    pub fn stop(&mut self, told: bool)
        ensures
            final(self).devices == old(self).devices,
            final(self).curr_device == old(self).curr_device,
            final(self).stop_flag,
            !final(self).pw_sender,
            final(self).status == FftStatus::ValidNotReading,
            old(self).pw_sender && told ==> !final(self).pw_running && !final(self).fft_running,
            !(old(self).pw_sender && told) ==> final(self).pw_running == old(self).pw_running
                && final(self).fft_running == old(self).fft_running,
    {
        self.stop_flag = true;
        if self.pw_sender {
            self.pw_sender = false;
            if told {
                self.pw_running = false;
                self.fft_running = false;
            }
        }
        self.status = FftStatus::ValidNotReading;
    }
}

/// The little-endian number in four bytes.
pub open spec fn sample_at(bytes: Seq<u8>, i: int) -> u32 {
    (bytes[4 * i] + 0x100 * bytes[4 * i + 1] + 0x1_0000 * bytes[4 * i + 2] + 0x100_0000 * bytes[4
        * i + 3]) as u32
}

/// How many frames there are in so many samples. The last one may be short.
pub open spec fn frame_count(n_samples: int, channels: int) -> int {
    (n_samples + channels - 1) / channels
}

/// One channel of the frames.
pub open spec fn channel(bytes: Seq<u8>, frames: int, channels: int, which: int) -> Seq<u32> {
    Seq::new(frames as nat, |k: int| sample_at(bytes, k * channels + which))
}

/// The last `n` items.
pub open spec fn latest(items: Seq<u32>, n: int) -> Seq<u32> {
    if items.len() > n {
        items.skip(items.len() - n)
    } else {
        items
    }
}

fn read_sample(bytes: &[u8], at: usize) -> (r: u32)
    requires
        at % 4 == 0,
        at + 4 <= bytes.len(),
    ensures
        r == sample_at(bytes@, at as int / 4),
{
    (bytes[at] as u32) + 0x100 * (bytes[at + 1] as u32) + 0x1_0000 * (bytes[at + 2] as u32)
        + 0x100_0000 * (bytes[at + 3] as u32)
}

/// The latest samples of two channels.
pub struct SampleBuffers {
    left: AllocRingBuffer<u32>,
    right: AllocRingBuffer<u32>,
    n_samples: usize,
}

impl SampleBuffers {
    /// Both buffers are full.
    pub closed spec fn wf(self) -> bool {
        &&& 0 < self.n_samples <= isize::MAX
        &&& ring(self.left).len() == self.n_samples
        &&& ring_capacity(self.left) == self.n_samples
        &&& ring(self.right).len() == self.n_samples
        &&& ring_capacity(self.right) == self.n_samples
    }

    /// The size of the window.
    pub closed spec fn size(self) -> int {
        self.n_samples as int
    }

    /// The latest samples of the left channel, the newest last.
    pub closed spec fn left_view(self) -> Seq<u32> {
        ring(self.left)
    }

    /// The latest samples of the right channel, the newest last.
    pub closed spec fn right_view(self) -> Seq<u32> {
        ring(self.right)
    }

    /// Buffers full of silence.
    pub fn new(n_samples: usize) -> (r: SampleBuffers)
        requires
            0 < n_samples,
            8 * n_samples <= isize::MAX,
        ensures
            r.wf(),
            r.size() == n_samples,
            r.left_view() == Seq::new(n_samples as nat, |i: int| 0u32),
            r.right_view() == Seq::new(n_samples as nat, |i: int| 0u32),
    {
        let mut left: AllocRingBuffer<u32> = new_ring(n_samples);
        let mut right: AllocRingBuffer<u32> = new_ring(n_samples);
        fill_ring(&mut left, 0);
        fill_ring(&mut right, 0);
        SampleBuffers { left, right, n_samples }
    }

    /// Takes in `chunk_size` bytes of interleaved samples: the first channel
    /// goes left, the second right. There are to be at least two.
    pub fn push_chunk(&mut self, bytes: &[u8], chunk_size: u32, channels: u32)
        requires
            old(self).wf(),
            channels > 0,
            chunk_size >= 4 ==> 4 * ((chunk_size / 4 - 1) / (channels as int) * channels) + 8
                <= bytes.len(),
        ensures
            final(self).wf(),
            final(self).size() == old(self).size(),
            ({
                let frames = frame_count(chunk_size as int / 4, channels as int);
                &&& final(self).left_view() == latest(
                    old(self).left_view() + channel(bytes@, frames, channels as int, 0),
                    old(self).size(),
                )
                &&& final(self).right_view() == latest(
                    old(self).right_view() + channel(bytes@, frames, channels as int, 1),
                    old(self).size(),
                )
            }),
    {
        let n_samples_avail: u64 = (chunk_size / 4) as u64;
        let step: u64 = channels as u64;
        let ghost c = channels as int;
        let ghost total = frame_count(n_samples_avail as int, c);
        let mut n: u64 = 0;
        let ghost mut k: int = 0;
        proof {
            assert(latest(old(self).left_view() + channel(bytes@, 0, c, 0), old(self).size())
                =~= old(self).left_view());
            assert(latest(old(self).right_view() + channel(bytes@, 0, c, 1), old(self).size())
                =~= old(self).right_view());
        }
        while n < n_samples_avail
            invariant
                self.wf(),
                self.n_samples == old(self).n_samples,
                0 < step == c <= u32::MAX,
                n_samples_avail == chunk_size / 4,
                n_samples_avail >= 1 ==> 4 * ((n_samples_avail - 1) / c * c) + 8 <= bytes.len(),
                0 <= k,
                n == k * c,
                n <= n_samples_avail + c - 1,
                self.left_view() == latest(
                    old(self).left_view() + channel(bytes@, k, c, 0),
                    self.size(),
                ),
                self.right_view() == latest(
                    old(self).right_view() + channel(bytes@, k, c, 1),
                    self.size(),
                ),
            decreases n_samples_avail + c - n,
        {
            proof {
                let m = n_samples_avail - 1;
                assert(k * c <= m ==> k <= m / c) by (nonlinear_arith)
                    requires
                        c > 0,
                ;
                assert(k * c <= m / c * c) by (nonlinear_arith)
                    requires
                        k <= m / c,
                        c > 0,
                ;
                assert((k + 1) * c == k * c + c) by (nonlinear_arith);
                assert((4 * n as int) / 4 == n);
                assert((4 * n + 4) / 4 == n + 1);
            }
            let l_start: usize = n as usize * 4;
            let l_end: usize = l_start + 4;
            let left: u32 = read_sample(bytes, l_start);
            let right: u32 = read_sample(bytes, l_end);
            push_ring(&mut self.left, left);
            push_ring(&mut self.right, right);
            proof {
                let (l, r) = (channel(bytes@, k, c, 0), channel(bytes@, k, c, 1));
                assert(channel(bytes@, k + 1, c, 0) =~= l.push(left));
                assert(channel(bytes@, k + 1, c, 1) =~= r.push(right));
                assert(self.left_view() =~= latest(
                    old(self).left_view() + channel(bytes@, k + 1, c, 0),
                    self.size(),
                ));
                assert(self.right_view() =~= latest(
                    old(self).right_view() + channel(bytes@, k + 1, c, 1),
                    self.size(),
                ));
                k = k + 1;
            }
            n = n + step;
        }
        proof {
            let a = n_samples_avail as int;
            assert(k == (a + c - 1) / c) by (nonlinear_arith)
                requires
                    c > 0,
                    k * c >= a,
                    k * c <= a + c - 1,
            ;
        }
    }

    /// Copies the latest samples of both channels, the newest last.
    pub fn window(&self) -> (r: (Vec<u32>, Vec<u32>))
        requires
            self.wf(),
        ensures
            r.0@ == self.left_view(),
            r.1@ == self.right_view(),
    {
        let n: usize = self.n_samples;
        let mut left: Vec<u32> = Vec::new();
        let mut right: Vec<u32> = Vec::new();
        for i in 0..n
            invariant
                self.wf(),
                n == self.n_samples,
                left@ == self.left_view().take(i as int),
                right@ == self.right_view().take(i as int),
        {
            let back: isize = -1 - (n - i - 1) as isize;
            proof {
                assert(n + back == i);
                vstd::arithmetic::div_mod::lemma_small_mod(i as nat, n as nat);
            }
            let from_left: Option<u32> = at_ring(&self.left, back);
            let from_right: Option<u32> = at_ring(&self.right, back);
            left.push(
                match from_left {
                    Some(sample) => sample,
                    None => 0,
                },
            );
            right.push(
                match from_right {
                    Some(sample) => sample,
                    None => 0,
                },
            );
            assert(left@ =~= self.left_view().take(i + 1));
            assert(right@ =~= self.right_view().take(i + 1));
        }
        assert(left@ =~= self.left_view());
        assert(right@ =~= self.right_view());
        (left, right)
    }
}

/// Nothing is analysed until the format of the stream is known.
pub fn format_known(rate: u32, chans: u8) -> (r: bool)
    ensures
        r == (rate != 0 && chans != 0),
{
    rate != 0 && chans != 0
}

/// Whether the output has to be set up anew: it does not have as many bins on
/// both sides as there are now.
pub fn output_outdated(left_len: usize, right_len: usize, n_bins: usize) -> (r: bool)
    ensures
        r == !(left_len == n_bins && right_len == n_bins),
{
    left_len != n_bins || right_len != n_bins
}

/// How many milliseconds pass between two analyses at so many frames a second.
/// Without a frame rate none follows the first.
pub fn frame_millis(fps: u32) -> (r: u64)
    ensures
        r == (if fps == 0 {
            u64::MAX as int
        } else {
            1000int / (fps as int)
        }),
{
    if fps == 0 {
        u64::MAX
    } else {
        (1000 / fps) as u64
    }
}

/// Taking in one list of samples and then another keeps the same samples as
/// taking in both at once.
pub proof fn chunks_add_up(window: Seq<u32>, first: Seq<u32>, second: Seq<u32>)
    ensures
        latest(latest(window + first, window.len() as int) + second, window.len() as int)
            == latest(window + (first + second), window.len() as int),
{
    let n = window.len() as int;
    assert(latest(latest(window + first, n) + second, n) =~= latest(
        window + (first + second),
        n,
    ));
}

/// What is set is what is read: a new list of devices has its first one in use, or
/// none if it is empty, and a device beyond the list is the last one.
pub proof fn parameters_are_read_as_they_are_set(
    devices: &mut PipeWireFftBackend,
    device: &mut PipeWireFftBackend,
    list: Vec<String>,
    idx: i32,
    list_key: &str,
    device_key: &str,
    list_changes: Vec<ParamChange>,
    device_changes: Vec<ParamChange>,
    listed: ParamValue,
    first: ParamValue,
    current: ParamValue,
    i: int,
)
    requires
        list_key@ == "devices"@,
        device_key@ == "current-device"@,
        list@.len() <= i32::MAX,
        call_ensures(
            PipeWireFftBackend::set_param,
            (devices, list_key, ParamValue::Devices(list)),
            list_changes,
        ),
        call_ensures(PipeWireFftBackend::get_param, (final(devices), list_key), listed),
        call_ensures(PipeWireFftBackend::get_param, (final(devices), device_key), first),
        *old(device) == *final(devices),
        call_ensures(
            PipeWireFftBackend::set_param,
            (device, device_key, ParamValue::CurrentDevice(idx)),
            device_changes,
        ),
        call_ensures(PipeWireFftBackend::get_param, (final(device), device_key), current),
    ensures
        listed matches ParamValue::Devices(shown) && shown@.len() == list@.len() && (0 <= i
            < list@.len() ==> shown@[i]@ == list@[i]@),
        first == ParamValue::CurrentDevice(if list@.len() > 0 { 0i32 } else { -1i32 }),
        list_changes@[0] == ParamChange::Devices,
        list_changes@.len() == (if list@.len() > 0 { 1int } else { 2 }),
        current matches ParamValue::CurrentDevice(now) && now == (if idx < list@.len() {
            idx as int
        } else {
            list@.len() - 1
        }),
        device_changes@.len() == 1,
        device_changes@[0] matches ParamChange::CurrentDevice(now) && current
            == ParamValue::CurrentDevice(now),
        final(device).status == old(devices).status,
{
    reveal_strlit("devices");
    reveal_strlit("current-device");
    assert("devices"@.len() == 7);
    assert("current-device"@.len() == 14);
    if let ParamValue::Devices(shown) = listed {
        assert(views(shown@).len() == shown@.len());
        assert(views(list@).len() == list@.len());
        if 0 <= i < list@.len() {
            assert(views(shown@)[i] == views(list@)[i]);
        }
    }
}

/// A value of the wrong kind sets nothing, and no other key is a parameter.
pub proof fn values_of_another_kind_set_nothing(
    devices: &mut PipeWireFftBackend,
    device: &mut PipeWireFftBackend,
    list: Vec<String>,
    idx: i32,
    list_key: &str,
    device_key: &str,
    no_list: Vec<ParamChange>,
    no_device: Vec<ParamChange>,
    key: &str,
    known: bool,
)
    requires
        list_key@ == "devices"@,
        device_key@ == "current-device"@,
        call_ensures(
            PipeWireFftBackend::set_param,
            (devices, device_key, ParamValue::Devices(list)),
            no_list,
        ),
        call_ensures(
            PipeWireFftBackend::set_param,
            (device, list_key, ParamValue::CurrentDevice(idx)),
            no_device,
        ),
        call_ensures(has_param, (key,), known),
    ensures
        *final(devices) == *old(devices) && no_list@.len() == 0,
        *final(device) == *old(device) && no_device@.len() == 0,
        known <==> key@ == "devices"@ || key@ == "current-device"@,
{
    reveal_strlit("devices");
    reveal_strlit("current-device");
    assert("devices"@.len() == 7);
    assert("current-device"@.len() == 14);
}

/// A source starts once: while it runs it cannot be started again, and once it was
/// stopped and its threads were waited for it can. A thread that could not be told
/// still runs.
pub proof fn a_source_runs_once_at_a_time(
    start: &mut PipeWireFftBackend,
    again: &mut PipeWireFftBackend,
    stop: &mut PipeWireFftBackend,
    restart: &mut PipeWireFftBackend,
    deaf: &mut PipeWireFftBackend,
    stuck: &mut PipeWireFftBackend,
    status: FftStatus,
    new: PipeWireFftBackend,
    started: Result<(), ()>,
    refused: Result<(), ()>,
    restarted: Result<(), ()>,
    not_restarted: Result<(), ()>,
)
    requires
        call_ensures(PipeWireFftBackend::new, (status,), new),
        *old(start) == new,
        call_ensures(PipeWireFftBackend::start, (start,), started),
        *old(again) == *final(start),
        call_ensures(PipeWireFftBackend::start, (again,), refused),
        *old(stop) == *final(start),
        call_ensures(PipeWireFftBackend::stop, (stop, true), ()),
        *old(restart) == *final(stop),
        call_ensures(PipeWireFftBackend::start, (restart,), restarted),
        *old(deaf) == *final(start),
        call_ensures(PipeWireFftBackend::stop, (deaf, false), ()),
        *old(stuck) == *final(deaf),
        call_ensures(PipeWireFftBackend::start, (stuck,), not_restarted),
    ensures
        new.status == status,
        started is Ok && final(start).status == FftStatus::Reading && !final(start).stop_flag,
        refused is Err && final(again).status == FftStatus::Reading,
        final(stop).status == FftStatus::ValidNotReading && final(stop).stop_flag,
        restarted is Ok && final(restart).status == FftStatus::Reading,
        !final(restart).stop_flag,
        not_restarted is Err,
{
}

/// New buffers hold silence, as much as was asked for.
pub proof fn buffers_begin_with_silence(
    n: usize,
    buffers: SampleBuffers,
    window: (Vec<u32>, Vec<u32>),
    i: int,
)
    requires
        0 < n,
        8 * n <= isize::MAX,
        call_ensures(SampleBuffers::new, (n,), buffers),
        call_ensures(SampleBuffers::window, (&buffers,), window),
    ensures
        window.0@.len() == n && window.1@.len() == n,
        0 <= i < n ==> window.0@[i] == 0 && window.1@[i] == 0,
{
}

/// A chunk of interleaved samples goes to the end of the windows, its first channel
/// left and its second one right, and pushes as many of the oldest samples out.
/// Counted from the newest, a sample of the chunk is the number that its four bytes
/// make up, the lowest byte first.
pub proof fn chunks_push_the_oldest_samples_out(
    buffers: &mut SampleBuffers,
    bytes: &[u8],
    chunk_size: u32,
    channels: u32,
    frames: int,
    before: (Vec<u32>, Vec<u32>),
    after: (Vec<u32>, Vec<u32>),
    age: int,
    at: int,
)
    requires
        old(buffers).wf(),
        channels > 0,
        0 <= frames,
        (frames - 1) * channels < chunk_size / 4 <= frames * channels,
        call_ensures(SampleBuffers::window, (old(buffers),), before),
        call_ensures(SampleBuffers::push_chunk, (buffers, bytes, chunk_size, channels), ()),
        call_ensures(SampleBuffers::window, (final(buffers),), after),
        0 <= age < after.0@.len(),
        at == 4 * ((frames - 1 - age) * channels),
    ensures
        after.0@.len() == before.0@.len() && after.1@.len() == before.1@.len(),
        age < frames ==> {
            &&& after.0@[after.0@.len() - 1 - age] == bytes@[at] + 0x100 * bytes@[at + 1] + 0x1_0000
                * bytes@[at + 2] + 0x100_0000 * bytes@[at + 3]
            &&& after.1@[after.1@.len() - 1 - age] == bytes@[at + 4] + 0x100 * bytes@[at + 5]
                + 0x1_0000 * bytes@[at + 6] + 0x100_0000 * bytes@[at + 7]
        },
        age >= frames ==> {
            &&& after.0@[after.0@.len() - 1 - age] == before.0@[before.0@.len() - 1 - (age
                - frames)]
            &&& after.1@[after.1@.len() - 1 - age] == before.1@[before.1@.len() - 1 - (age
                - frames)]
        },
{
    let c = channels as int;
    let samples = chunk_size as int / 4;
    assert(frames == (samples + c - 1) / c) by (nonlinear_arith)
        requires
            c > 0,
            (frames - 1) * c < samples,
            samples <= frames * c,
    ;
    assert(frame_count(samples, c) == frames);
    let n = before.0@.len() as int;
    let left = channel(bytes@, frames, c, 0);
    let right = channel(bytes@, frames, c, 1);
    assert(after.0@ == latest(before.0@ + left, old(buffers).size()));
    assert(after.1@ == latest(before.1@ + right, old(buffers).size()));
    if age < frames {
        let k = frames - 1 - age;
        assert(after.0@[after.0@.len() - 1 - age] == left[k]);
        assert(after.1@[after.1@.len() - 1 - age] == right[k]);
        assert(left[k] == sample_at(bytes@, k * c + 0));
        assert(right[k] == sample_at(bytes@, k * c + 1));
        assert(4 * (k * c + 1) == at + 4);
    }
}

/// Nothing is analysed before the format is known, and the output is set up anew
/// whenever a side does not have the bins that are wanted.
pub proof fn the_format_has_to_be_known(
    rate: u32,
    chans: u8,
    known: bool,
    left: usize,
    right: usize,
    bins: usize,
    outdated: bool,
)
    requires
        call_ensures(format_known, (rate, chans), known),
        call_ensures(output_outdated, (left, right, bins), outdated),
    ensures
        known <==> rate > 0 && chans > 0,
        outdated <==> left != bins || right != bins,
{
}

/// As many frames as are wanted fit into a second, and no shorter pause would do.
pub proof fn the_frames_fill_a_second(fps: u32, millis: u64)
    requires
        call_ensures(frame_millis, (fps,), millis),
    ensures
        fps > 0 ==> millis * fps <= 1000 < (millis + 1) * fps,
        fps == 0 ==> millis == u64::MAX,
{
    if fps > 0 {
        let (m, f) = (millis as int, fps as int);
        assert(m == 1000int / f);
        assert(m * f <= 1000 < (m + 1) * f) by (nonlinear_arith)
            requires
                f > 0,
                m == 1000int / f,
        ;
    }
}

} // verus!
