use vstd::prelude::*;
use vstd::string::StringExecFns;
use vstd::arithmetic::div_mod::lemma_fundamental_div_mod;
use crate::gif_stream::{
    GifStream, gif_bytes, gif_frame_bytes, gif_header, loop_forever_block, new_gif_encoder,
    set_loop_forever, written_len, write_indexed_frame, finish_gif,
};
use crate::palette::{
    Palette, palette_seed, neuquant_table, neuquant_index, train_palette, palette_rgb, palette_index,
};

verus! {

pub const GIF_FRAMERATE: u32 = 8;

/// Side of the square frames that are recorded.
pub const GIF_RESOLUTION: u32 = 400;

pub const GIF_MAX_FRAMES: u32 = 140;

pub const GIF_MIN_FRAMES: u32 = 100;

/// Size budget of the encoded animation: 10 MiB.
pub const GIF_MAX_SIZE: usize = 10485760;

/// Delay between frames in hundredths of a second: 100 / 8 frames per second,
/// played 1.5 times faster, rounded down.
pub const GIF_FRAME_DELAY: u16 = 8;

/// Row stride alignment, in bytes, of a texture copied into a buffer.
pub const ROW_ALIGNMENT: u32 = 256;

/// Bytes of one tightly packed RGBA row of a frame.
pub const FRAME_ROW_BYTES: usize = 1600;

/// Bytes of one row of the staging buffer: the packed row rounded up to the
/// row alignment.
pub const PADDED_ROW_BYTES: usize = 1792;

/// Pixels of one frame.
pub const FRAME_PIXELS: usize = 160000;

/// Allowance for the frame headers when projecting the encoded size.
pub const FRAME_OVERHEAD: usize = 32;

/// The bytes the palette is trained on: each seed's red, green and blue,
/// with a fixed opaque alpha, so that the seeds' alpha plays no part.
pub open spec fn seed_bytes(colors: Seq<SeedColor>, n: nat) -> Seq<u8> {
    Seq::new(4 * n, |k: int| if k % 4 == 3 { 255u8 } else { colors[k / 4].rgba[k % 4] })
}

/// Palette indices of the RGBA pixels of `rgba`, four bytes each.
pub open spec fn quantized(seed: Seq<u8>, rgba: Seq<u8>) -> Seq<u8> {
    Seq::new(rgba.len() / 4, |i: int| neuquant_index(seed, rgba.subrange(4 * i, 4 * i + 4)))
}

/// A seed colour of the palette, each channel as a byte.
#[derive(Clone, Copy, Debug)]
pub struct SeedColor {
    pub rgba: [u8; 4],
}

pub enum GifStatus {
    Idle,
    Recording,
    /// The animation was saved; where, when the host knows it.
    Complete(Option<String>),
    Error(String),
}

impl GifStatus {
    pub fn is_recording(&self) -> (r: bool)
        ensures
            r == (self is Recording),
    {
        match self {
            GifStatus::Recording => true,
            _ => false,
        }
    }

    pub fn not_recording(&self) -> (r: bool)
        ensures
            r == (self is Idle),
    {
        match self {
            GifStatus::Idle => true,
            _ => false,
        }
    }
}

#[derive(Clone, Copy, Debug, PartialEq, Eq)]
pub enum RecorderError {
    /// The encoder could not be started.
    EncoderInit,
    /// The encoder refused a frame.
    EncoderWrite,
    /// A frame arrived while no encoder or palette was set up.
    InvalidState,
}

/// The part of a recorder that decides what happens on each tick.
pub struct CaptureState {
    pub recording: bool,
    pub frame_count: nat,
    pub inflight: bool,
    pub size_hit: bool,
}

/// Whether a recording with `frame_count` frames should end: never below the
/// minimum, always at the maximum, and in between once the size budget was hit.
pub open spec fn stop_due(frame_count: nat, size_hit: bool) -> bool {
    if frame_count < GIF_MIN_FRAMES {
        false
    } else if frame_count >= GIF_MAX_FRAMES {
        true
    } else {
        size_hit
    }
}

pub open spec fn can_submit(s: CaptureState) -> bool {
    s.recording && !s.inflight && !stop_due(s.frame_count, s.size_hit)
}

/// The state after a tick that may start a readback.
pub open spec fn submit_step(s: CaptureState) -> CaptureState {
    if can_submit(s) {
        CaptureState { recording: s.recording, frame_count: s.frame_count, inflight: true, size_hit: s.size_hit }
    } else {
        s
    }
}

/// Whether one more frame would take an output of `written` bytes over budget.
pub open spec fn over_budget(written: nat) -> bool {
    written + FRAME_PIXELS + FRAME_OVERHEAD > GIF_MAX_SIZE
}

/// The state after the pending readback was collected and its frame offered
/// to the encoder.
pub open spec fn collect_step(s: CaptureState, over: bool) -> CaptureState {
    if !s.inflight {
        s
    } else if over {
        CaptureState { recording: s.recording, frame_count: s.frame_count, inflight: false, size_hit: true }
    } else {
        CaptureState { recording: s.recording, frame_count: s.frame_count + 1, inflight: false, size_hit: s.size_hit }
    }
}

/// A tick on which the pending readback, if any, is not ready yet.
pub open spec fn idle_tick(s: CaptureState) -> CaptureState {
    submit_step(s)
}

/// A tick on which the pending readback is ready and its frame fits the budget.
pub open spec fn ready_tick(s: CaptureState) -> CaptureState {
    collect_step(submit_step(s), false)
}

pub open spec fn idle_ticks(s: CaptureState, n: nat) -> CaptureState
    decreases n,
{
    if n == 0 {
        s
    } else {
        idle_tick(idle_ticks(s, (n - 1) as nat))
    }
}

pub open spec fn ready_ticks(s: CaptureState, n: nat) -> CaptureState
    decreases n,
{
    if n == 0 {
        s
    } else {
        ready_tick(ready_ticks(s, (n - 1) as nat))
    }
}

/// The state of a recorder right after a recording started.
pub open spec fn started() -> CaptureState {
    CaptureState { recording: true, frame_count: 0, inflight: false, size_hit: false }
}

/// While no readback ever becomes ready, no frame is counted, and a readback
/// is pending exactly when one was pending before or a tick submitted one.
pub proof fn lemma_idle_ticks(s: CaptureState, n: nat)
    requires
        s.frame_count == 0,
    ensures
        idle_ticks(s, n).frame_count == 0,
        idle_ticks(s, n).recording == s.recording,
        idle_ticks(s, n).inflight <==> (s.inflight || (n > 0 && s.recording)),
    decreases n,
{
    if n > 0 {
        lemma_idle_ticks(s, (n - 1) as nat);
    }
}

/// After a recording starts and `n` readbacks come back ready, each within the
/// size budget, `min(n, GIF_MAX_FRAMES)` frames were appended.
pub proof fn lemma_ready_ticks(n: nat)
    ensures
        ready_ticks(started(), n).frame_count == if n < GIF_MAX_FRAMES { n } else { GIF_MAX_FRAMES as nat },
        ready_ticks(started(), n).recording,
        !ready_ticks(started(), n).inflight,
        !ready_ticks(started(), n).size_hit,
    decreases n,
{
    if n > 0 {
        lemma_ready_ticks((n - 1) as nat);
    }
}

/// Below the minimum number of frames a recording never stops, whatever the
/// size budget says.
pub proof fn lemma_no_stop_below_min(frame_count: nat, size_hit: bool)
    requires
        frame_count < GIF_MIN_FRAMES,
    ensures
        !stop_due(frame_count, size_hit),
{
}

/// The rows of a staging buffer with their padding removed.
pub open spec fn unpadded(src: Seq<u8>, row: nat, padded: nat, height: nat) -> Seq<u8> {
    Seq::new(row * height, |i: int| src[(i / row as int) * padded + i % row as int])
}

/// Records the rendered animation into an in-memory GIF. `inflight` tells
/// whether a readback was submitted and not yet collected; `should_stop`
/// whether a frame was refused for the size budget.
pub struct GifRecorder {
    pub id: u32,
    pub status: GifStatus,
    pub encoder: Option<GifStream>,
    pub palette: Option<Palette>,
    pub frame_count: u32,
    pub inflight: bool,
    pub should_stop: bool,
    pub rgba_buffer: Vec<u8>,
    pub quantized_buffer: Vec<u8>,
    /// The finished animation, kept until it is saved or the recording stops.
    pub output: Option<Vec<u8>>,
}

impl GifRecorder {
    pub open spec fn capture_state(&self) -> CaptureState {
        CaptureState {
            recording: self.status is Recording,
            frame_count: self.frame_count as nat,
            inflight: self.inflight,
            size_hit: self.should_stop,
        }
    }

    /// The last frame collected, as tightly packed RGBA bytes.
    pub open spec fn frame_rgba(&self) -> Seq<u8> {
        self.rgba_buffer@
    }

    pub open spec fn wf(&self) -> bool {
        &&& self.frame_count <= GIF_MAX_FRAMES
        &&& self.inflight ==> self.frame_count < GIF_MAX_FRAMES
    }

    pub fn new() -> (r: Self)
        ensures
            r.wf(),
            r.id == 0,
            r.status is Idle,
            r.encoder is None,
            r.palette is None,
            r.frame_count == 0,
            r.output is None,
            r.capture_state() == (CaptureState {
                recording: false,
                frame_count: 0,
                inflight: false,
                size_hit: false,
            }),
    {
        GifRecorder {
            id: 0,
            status: GifStatus::Idle,
            encoder: None,
            palette: None,
            frame_count: 0,
            inflight: false,
            should_stop: false,
            rgba_buffer: Vec::new(),
            quantized_buffer: Vec::new(),
            output: None,
        }
    }

    pub fn is_recording(&self) -> (r: bool)
        ensures
            r == (self.status is Recording),
    {
        self.status.is_recording()
    }

    pub fn not_recording(&self) -> (r: bool)
        ensures
            r == (self.status is Idle),
    {
        self.status.not_recording()
    }

    pub fn no_inflight(&self) -> (r: bool)
        ensures
            r == !self.capture_state().inflight,
    {
        !self.inflight
    }

    pub fn should_stop(&self) -> (r: bool)
        ensures
            r == stop_due(self.frame_count as nat, self.capture_state().size_hit),
    {
        if self.frame_count < GIF_MIN_FRAMES {
            false
        } else if self.frame_count >= GIF_MAX_FRAMES {
            true
        } else {
            self.should_stop
        }
    }

    /// Decides on a host tick whether a readback of the rendered frame is to
    /// be submitted now; when it returns true the host submits one and hands
    /// its mapped bytes to `try_write_frame` once the driver marks it ready.
    pub fn begin_readback(&mut self) -> (r: bool)
        requires
            old(self).wf(),
        ensures
            final(self).wf(),
            r == can_submit(old(self).capture_state()),
            final(self).capture_state() == submit_step(old(self).capture_state()),
            final(self).id == old(self).id,
            final(self).status == old(self).status,
            final(self).encoder == old(self).encoder,
            final(self).palette == old(self).palette,
            final(self).frame_rgba() == old(self).frame_rgba(),
    {
        if self.is_recording() && !self.inflight && !self.should_stop() {
            self.inflight = true;
            true
        } else {
            false
        }
    }

    /// Starts a recording: trains the palette on the seed colours and opens
    /// an endlessly looping animation that uses it as its colour table.
    pub fn init_encoder(&mut self, active_colors: &Vec<SeedColor>) -> (r: Result<(), RecorderError>)
        requires
            old(self).wf(),
            active_colors@.len() * 4 <= usize::MAX,
        ensures
            final(self).wf(),
            final(self).id == old(self).id,
            r is Ok,
            final(self).status is Recording,
            final(self).output is None,
            final(self).capture_state() == (CaptureState {
                recording: true,
                frame_count: 0,
                inflight: false,
                size_hit: false,
            }),
            final(self).palette matches Some(q) && palette_seed(q) == seed_bytes(
                active_colors@,
                active_colors@.len(),
            ),
            final(self).encoder matches Some(e) && gif_bytes(e) == gif_header(
                GIF_RESOLUTION as u16,
                GIF_RESOLUTION as u16,
                neuquant_table(seed_bytes(active_colors@, active_colors@.len())),
            ) + loop_forever_block(),
    {
        let mut colors: Vec<u8> = Vec::new();
        let mut i: usize = 0;
        while i < active_colors.len()
            invariant
                i <= active_colors@.len(),
                active_colors@.len() * 4 <= usize::MAX,
                colors@ == seed_bytes(active_colors@, i as nat),
            decreases active_colors@.len() - i,
        {
            let c = active_colors[i];
            colors.push(c.rgba[0]);
            colors.push(c.rgba[1]);
            colors.push(c.rgba[2]);
            colors.push(255);
            i = i + 1;
            assert(colors@ =~= seed_bytes(active_colors@, i as nat));
        }
        let palette = train_palette(&colors);
        let table = palette_rgb(&palette);
        let res = new_gif_encoder(GIF_RESOLUTION as u16, GIF_RESOLUTION as u16, &table);
        match res {
            Ok(mut encoder) => {
                match set_loop_forever(&mut encoder) {
                    Ok(()) => {
                        self.palette = Some(palette);
                        self.encoder = Some(encoder);
                        self.frame_count = 0;
                        self.inflight = false;
                        self.should_stop = false;
                        self.output = None;
                        self.status = GifStatus::Recording;
                        Ok(())
                    },
                    Err(_) => {
                        self.status = GifStatus::Error(String::from_str("could not set the loop count"));
                        Err(RecorderError::EncoderInit)
                    },
                }
            },
            Err(_) => {
                self.status = GifStatus::Error(String::from_str("could not start the encoder"));
                Err(RecorderError::EncoderInit)
            },
        }
    }

    /// Ends the recording without saving: drops palette, encoder, any
    /// pending readback and any unsaved output, and moves to a new recording id.
    pub fn stop(&mut self)
        requires
            old(self).id < u32::MAX,
        ensures
            final(self).wf(),
            final(self).id == old(self).id + 1,
            final(self).status is Idle,
            final(self).encoder is None,
            final(self).palette is None,
            final(self).output is None,
            final(self).frame_count == 0,
            !final(self).capture_state().inflight,
            final(self).capture_state().size_hit == old(self).capture_state().size_hit,
    {
        self.status = GifStatus::Idle;
        self.encoder = None;
        self.palette = None;
        self.output = None;
        self.frame_count = 0;
        self.inflight = false;
        self.id = self.id + 1;
    }

    /// Takes a frame if a readback is pending and its bytes are ready:
    /// `mapped` is the staging buffer once the driver has marked it ready.
    /// The frame is unpadded, mapped to palette indices and appended, unless
    /// that would take the output over budget, which marks the size as hit
    /// and leaves the output as it was.
    pub fn try_write_frame(&mut self, mapped: Option<&Vec<u8>>) -> (r: Result<bool, RecorderError>)
        requires
            old(self).wf(),
            mapped matches Some(m) ==> m@.len() >= PADDED_ROW_BYTES * (GIF_RESOLUTION as nat),
        ensures
            final(self).wf(),
            final(self).id == old(self).id,
            final(self).output == old(self).output,
            (!old(self).capture_state().inflight || mapped is None) ==> r == Ok::<bool, RecorderError>(false)
                && *final(self) == *old(self),
            old(self).capture_state().inflight && mapped is Some ==> {
                let m = mapped.unwrap();
                &&& !final(self).capture_state().inflight
                &&& final(self).frame_rgba() == unpadded(m@, FRAME_ROW_BYTES as nat, PADDED_ROW_BYTES as nat, GIF_RESOLUTION as nat)
                &&& (old(self).encoder is None || old(self).palette is None) ==> {
                    &&& r == Err::<bool, RecorderError>(RecorderError::InvalidState)
                    &&& final(self).status is Error
                    &&& final(self).frame_count == old(self).frame_count
                }
                &&& (old(self).encoder is Some && old(self).palette is Some) ==> {
                    let written = gif_bytes(old(self).encoder.unwrap());
                    let over = over_budget(written.len());
                    &&& r == Ok::<bool, RecorderError>(true)
                    &&& final(self).status == old(self).status
                    &&& final(self).palette == old(self).palette
                    &&& final(self).capture_state() == collect_step(old(self).capture_state(), over)
                    &&& over ==> final(self).encoder == old(self).encoder
                    &&& !over ==> (final(self).encoder matches Some(e) && gif_bytes(e) == written
                        + gif_frame_bytes(
                        GIF_RESOLUTION as u16,
                        GIF_RESOLUTION as u16,
                        GIF_FRAME_DELAY,
                        quantized(palette_seed(old(self).palette.unwrap()), final(self).frame_rgba()),
                    ))
                }
            },
    {
        if !self.inflight {
            return Ok(false);
        }
        let m = match mapped {
            Some(m) => m,
            None => return Ok(false),
        };
        proof {
            assert(FRAME_ROW_BYTES == 4 * GIF_RESOLUTION);
            assert(FRAME_PIXELS == GIF_RESOLUTION * GIF_RESOLUTION);
            assert(PADDED_ROW_BYTES == (FRAME_ROW_BYTES + ROW_ALIGNMENT - 1) / (ROW_ALIGNMENT as int)
                * ROW_ALIGNMENT);
        }
        unpad_rows(&mut self.rgba_buffer, m, FRAME_ROW_BYTES, PADDED_ROW_BYTES, GIF_RESOLUTION as usize);
        self.inflight = false;
        if self.encoder.is_none() || self.palette.is_none() {
            self.status = GifStatus::Error(String::from_str("no encoder"));
            return Err(RecorderError::InvalidState);
        }
        let mut pixels: Vec<u8> = Vec::new();
        std::mem::swap(&mut pixels, &mut self.quantized_buffer);
        match &self.palette {
            Some(q) => quantize(q, &self.rgba_buffer, &mut pixels),
            None => {},
        }
        let mut encoder = match self.encoder.take() {
            Some(e) => e,
            None => return Err(RecorderError::InvalidState),
        };
        let written = written_len(&encoder);
        if written > GIF_MAX_SIZE - FRAME_PIXELS - FRAME_OVERHEAD {
            self.quantized_buffer = pixels;
            self.encoder = Some(encoder);
            self.should_stop = true;
            return Ok(true);
        }
        let (res, back) = write_indexed_frame(
            &mut encoder,
            GIF_RESOLUTION as u16,
            GIF_RESOLUTION as u16,
            GIF_FRAME_DELAY,
            pixels,
        );
        self.quantized_buffer = back;
        self.encoder = Some(encoder);
        match res {
            Ok(()) => {
                self.frame_count = self.frame_count + 1;
                Ok(true)
            },
            Err(_) => {
                self.status = GifStatus::Error(String::from_str("could not write a frame"));
                Err(RecorderError::EncoderWrite)
            },
        }
    }

    /// Closes the animation and hands out its bytes for saving. The bytes are
    /// kept, so that a save the user dismissed can be tried again and gets the
    /// same bytes. Without a recording in progress the recorder moves to an
    /// error instead.
    pub fn finish(&mut self) -> (r: Option<Vec<u8>>)
        ensures
            final(self).id == old(self).id,
            final(self).frame_count == old(self).frame_count,
            final(self).capture_state().inflight == old(self).capture_state().inflight,
            old(self).output matches Some(v) ==> {
                &&& r matches Some(w) && w@ == v@
                &&& final(self).output == old(self).output
                &&& final(self).status == old(self).status
                &&& final(self).encoder == old(self).encoder
            },
            old(self).output is None && old(self).status is Recording && old(self).encoder is Some ==> {
                &&& r matches Some(w) && w@ == gif_bytes(old(self).encoder.unwrap()).push(0x3Bu8)
                &&& final(self).output matches Some(o) && o@ == r.unwrap()@
                &&& final(self).status is Recording
                &&& final(self).encoder is None
            },
            old(self).output is None && !(old(self).status is Recording && old(self).encoder is Some) ==> {
                &&& r is None
                &&& final(self).status is Error
                &&& final(self).output is None
            },
    {
        match &self.output {
            Some(bytes) => {
                return Some(copy_bytes(bytes));
            },
            None => {},
        }
        let recording = self.is_recording();
        if recording && self.encoder.is_some() {
            match self.encoder.take() {
                Some(encoder) => {
                    match finish_gif(encoder) {
                        Some(bytes) => {
                            let handed = copy_bytes(&bytes);
                            self.output = Some(bytes);
                            return Some(handed);
                        },
                        None => {},
                    }
                },
                None => {},
            }
        }
        self.status = GifStatus::Error(String::from_str("the recording could not be finished"));
        None
    }

    /// Records that the animation was saved, and lets go of its bytes.
    pub fn complete(&mut self, location: Option<String>)
        ensures
            final(self).status == GifStatus::Complete(location),
            final(self).output is None,
            final(self).id == old(self).id,
            final(self).encoder == old(self).encoder,
            final(self).frame_count == old(self).frame_count,
    {
        self.status = GifStatus::Complete(location);
        self.output = None;
    }

    /// File name offered for a recording of the preset `name`.
    pub fn get_name(&self, name: String, reverse: bool) -> (r: String)
        ensures
            r@ == (if reverse { "unobamify_"@ } else { "obamify_"@ }) + name@,
    {
        let prefix = if reverse { String::from_str("unobamify_") } else { String::from_str("obamify_") };
        prefix.concat(name.as_str())
    }
}

proof fn lemma_row_index(k: int, row: int, padded: int, height: int)
    requires
        0 <= k < row * height,
        0 < row <= padded,
    ensures
        0 <= (k / row) * padded + k % row < padded * height,
{
    lemma_fundamental_div_mod(k, row);
    let q = k / row;
    let r = k % row;
    assert(0 <= r < row);
    assert(0 <= q < height) by (nonlinear_arith)
        requires
            k == row * q + r,
            0 <= r < row,
            0 <= k < row * height,
            0 < row,
    ;
    assert(0 <= q * padded + r < padded * height) by (nonlinear_arith)
        requires
            0 <= q < height,
            0 <= r < row,
            row <= padded,
    ;
}

/// Copies `height` rows of `row` bytes each, found every `padded` bytes in
/// `src`, into `dst`, one after another.
fn unpad_rows(dst: &mut Vec<u8>, src: &Vec<u8>, row: usize, padded: usize, height: usize)
    requires
        0 < row <= padded,
        src@.len() >= padded * height,
        padded * height <= usize::MAX,
    ensures
        final(dst)@ == unpadded(src@, row as nat, padded as nat, height as nat),
{
    dst.clear();
    proof {
        assert(row * height <= padded * height) by (nonlinear_arith)
            requires
                row <= padded,
        ;
    }
    let total = row * height;
    let mut k: usize = 0;
    while k < total
        invariant
            0 < row <= padded,
            total == row * height,
            total <= padded * height,
            src@.len() >= padded * height,
            padded * height <= usize::MAX,
            k <= total,
            dst@ == unpadded(src@, row as nat, padded as nat, height as nat).subrange(0, k as int),
        decreases total - k,
    {
        proof {
            lemma_row_index(k as int, row as int, padded as int, height as int);
        }
        let at = (k / row) * padded + k % row;
        dst.push(src[at]);
        k = k + 1;
        assert(dst@ =~= unpadded(src@, row as nat, padded as nat, height as nat).subrange(0, k as int));
    }
    assert(dst@ =~= unpadded(src@, row as nat, padded as nat, height as nat));
}

fn copy_bytes(v: &Vec<u8>) -> (r: Vec<u8>)
    ensures
        r@ == v@,
{
    let r = v.clone();
    assert(r@ =~= v@);
    r
}

/// Maps each four-byte pixel of `rgba` to its palette index.
fn quantize(q: &Palette, rgba: &Vec<u8>, out: &mut Vec<u8>)
    ensures
        final(out)@ == quantized(palette_seed(*q), rgba@),
{
    out.clear();
    let n = rgba.len() / 4;
    proof {
        lemma_fundamental_div_mod(rgba@.len() as int, 4);
    }
    let mut i: usize = 0;
    while i < n
        invariant
            n == rgba@.len() / 4,
            4 * n <= rgba@.len(),
            rgba@.len() <= usize::MAX,
            i <= n,
            out@ == quantized(palette_seed(*q), rgba@).subrange(0, i as int),
        decreases n - i,
    {
        let at = 4 * i;
        let idx = palette_index(q, rgba[at], rgba[at + 1], rgba[at + 2], rgba[at + 3]);
        assert(seq![rgba@[at as int], rgba@[at + 1], rgba@[at + 2], rgba@[at + 3]] =~= rgba@.subrange(
            4 * i,
            4 * i + 4,
        ));
        out.push(idx);
        i = i + 1;
        assert(out@ =~= quantized(palette_seed(*q), rgba@).subrange(0, i as int));
    }
    assert(out@ =~= quantized(palette_seed(*q), rgba@));
}

} // verus!
