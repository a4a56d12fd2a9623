use vstd::prelude::*;
use vstd::arithmetic::power2::pow2;
use crate::pixels::{FrameParts, IndexedFrame, is_frame_image, pixel_count};

verus! {

/// The 16-bit little-endian value at `at` in `bytes`.
pub open spec fn le_u16(bytes: Seq<u8>, at: int) -> int {
    bytes[at] + 256 * bytes[at + 1]
}

/// Length in bytes of the global color table that a header's flags byte
/// announces: 3 * 2^(size + 1) when its top bit is set, none otherwise.
pub open spec fn global_table_len(flags: u8) -> int {
    if flags >= 0x80 {
        (3 * pow2(((flags % 8) + 1) as nat)) as int
    } else {
        0
    }
}

/// `bytes` start with a GIF header: the signature `GIF87a` or `GIF89a`, the
/// logical screen descriptor (width, height, flags, background, aspect), the
/// global color table the flags announce, and at least one byte more.
pub open spec fn has_gif_header(bytes: Seq<u8>) -> bool {
    &&& bytes.len() > 13
    &&& bytes.len() >= 14 + global_table_len(bytes[10])
    &&& bytes[0] == 0x47 && bytes[1] == 0x49 && bytes[2] == 0x46
    &&& bytes[3] == 0x38 && (bytes[4] == 0x37 || bytes[4] == 0x39) && bytes[5] == 0x61
}

/// The global color table of a GIF header, if it announces one.
pub open spec fn header_global_palette(bytes: Seq<u8>) -> Option<Seq<u8>> {
    if global_table_len(bytes[10]) > 0 {
        Some(bytes.subrange(13, 13 + global_table_len(bytes[10])))
    } else {
        None
    }
}

/// The color table that frames without their own table use: the header's
/// global table, or an empty one.
pub open spec fn global_or_empty(bytes: Seq<u8>) -> Seq<u8> {
    match header_global_palette(bytes) {
        Some(table) => table,
        None => Seq::empty(),
    }
}

/// An animated GIF decoded into BGRA frames.
#[derive(Debug)]
pub struct GifData {
    /// Logical screen width.
    pub width: u16,
    /// Logical screen height.
    pub height: u16,
    /// One BGRA image of the logical screen per frame, four bytes per pixel.
    pub frames_bgra: Vec<Vec<u8>>,
    /// Delay of each frame, in hundredths of a second.
    pub frame_delays: Vec<u16>,
}

/// Why a GIF could not be decoded.
#[derive(Debug)]
pub enum GifError {
    /// The header or global color table could not be read; the decoder's message.
    ReadInfo(String),
    /// A frame could not be read; the decoder's message.
    ReadFrame(String),
    /// An image of the logical screen would not fit in memory on this target.
    ScreenTooLarge,
    /// The stream holds no frame.
    NoFrames,
}

/// `images` and `delays` hold, in order, the BGRA images of `frames` in
/// buffers of the `width` by `height` logical screen, and their delays, whose indices refer to their
/// own color table or else to `global`.
pub open spec fn decoded_into(
    images: Seq<Vec<u8>>,
    delays: Seq<u16>,
    width: int,
    height: int,
    global: Seq<u8>,
    frames: Seq<FrameParts>,
) -> bool {
    &&& images.len() == frames.len()
    &&& delays.len() == frames.len()
    &&& forall|i: int|
        0 <= i < frames.len() ==> {
            &&& is_frame_image(#[trigger] images[i]@, frames[i], global, width * height)
            &&& delays[i] == frames[i].0
        }
}

/// `gif` holds, in order, the screen-sized images and the delays of `frames`.
pub open spec fn decoded_from(gif: GifData, global: Seq<u8>, frames: Seq<FrameParts>) -> bool {
    decoded_into(gif.frames_bgra@, gif.frame_delays@, gif.width as int, gif.height as int, global, frames)
}

/// Whether an image of a `width` by `height` screen, four bytes per pixel, has
/// a length that a `usize` can hold.
pub open spec fn screen_fits(width: u16, height: u16) -> bool {
    4 * pixel_count(width, height) <= usize::MAX
}

/// `res` is what assembling `frames` on a `width` by `height` screen gives:
/// `ScreenTooLarge` when a screen image does not fit in memory, else
/// `NoFrames` when there is no frame, else the frames' images and delays.
pub open spec fn assembled(
    res: Result<GifData, GifError>,
    width: u16,
    height: u16,
    global: Seq<u8>,
    frames: Seq<FrameParts>,
) -> bool {
    match res {
        Err(GifError::ScreenTooLarge) => !screen_fits(width, height),
        Err(GifError::NoFrames) => screen_fits(width, height) && frames.len() == 0,
        Ok(gif) => {
            &&& screen_fits(width, height)
            &&& frames.len() > 0
            &&& gif.width == width
            &&& gif.height == height
            &&& decoded_from(gif, global, frames)
        },
        _ => false,
    }
}

/// Adds `done` in front of the frames of `rest`, keeping an error.
pub open spec fn prepend(done: Seq<FrameParts>, rest: Result<Seq<FrameParts>, Seq<char>>) -> Result<
    Seq<FrameParts>,
    Seq<char>,
> {
    match rest {
        Ok(later) => Ok(done + later),
        Err(e) => Err(e),
    }
}

/// Prepending twice is prepending the concatenation.
proof fn lemma_prepend_twice(
    first: Seq<FrameParts>,
    second: Seq<FrameParts>,
    rest: Result<Seq<FrameParts>, Seq<char>>,
)
    ensures
        prepend(first, prepend(second, rest)) == prepend(first + second, rest),
{
    if let Ok(later) = rest {
        assert(first + (second + later) =~= (first + second) + later);
    }
}

/// The frames that the decoder opened on `bytes` hands out from its `k`-th
/// read on, up to the end of the stream, or the message of the first read
/// that fails.
pub open spec fn stream_frames(bytes: Seq<u8>, k: nat) -> Result<Seq<FrameParts>, Seq<char>>
    decreases bytes.len() - k,
{
    match gif_frame_outcome(bytes, k) {
        Err(e) => Err(e),
        Ok(Some(frame)) => if k < bytes.len() {
            prepend(seq![frame], stream_frames(bytes, k + 1))
        } else {
            Ok(Seq::empty())
        },
        Ok(None) => Ok(Seq::empty()),
    }
}

/// What decoding `bytes` gives: `ReadInfo` with the decoder's message without
/// a whole header, `ReadFrame` with the decoder's message when a frame cannot
/// be read, and else the frames assembled on the logical screen with the
/// header's global color table.
pub open spec fn decoded(res: Result<GifData, GifError>, bytes: Seq<u8>) -> bool {
    if !has_gif_header(bytes) {
        res matches Err(GifError::ReadInfo(text)) && text@ == gif_header_error(bytes)
    } else {
        match stream_frames(bytes, 0) {
            Err(message) => res matches Err(GifError::ReadFrame(text)) && text@ == message,
            Ok(frames) => assembled(
                res,
                le_u16(bytes, 6) as u16,
                le_u16(bytes, 8) as u16,
                global_or_empty(bytes),
                frames,
            ),
        }
    }
}

impl GifData {
    /// Assembles a `GifData` from decoded frames: converts each to a BGRA
    /// buffer of the `width` by `height` logical screen and keeps its delay. Fails with `ScreenTooLarge`
    /// when a screen image does not fit in memory, and else with `NoFrames`
    /// when there is no frame.
    pub fn from_frames(width: u16, height: u16, global_palette: &[u8], frames: &[IndexedFrame]) -> (res:
        Result<GifData, GifError>)
        ensures
            assembled(res, width, height, global_palette@, frames@.map_values(|f: IndexedFrame| f@)),
    {
        let ghost parts = frames@.map_values(|f: IndexedFrame| f@);
        let w = width as u64;
        let h = height as u64;
        assert(w * h <= 0xffff * 0xffff) by (nonlinear_arith)
            requires
                w <= 0xffff,
                h <= 0xffff,
        ;
        if w * h * 4 > usize::MAX as u64 {
            return Err(GifError::ScreenTooLarge);
        }
        let mut frames_bgra: Vec<Vec<u8>> = Vec::new();
        let mut frame_delays: Vec<u16> = Vec::new();
        let mut i: usize = 0;
        while i < frames.len()
            invariant
                i <= frames@.len(),
                screen_fits(width, height),
                parts == frames@.map_values(|f: IndexedFrame| f@),
                decoded_into(
                    frames_bgra@,
                    frame_delays@,
                    width as int,
                    height as int,
                    global_palette@,
                    parts.take(i as int),
                ),
            decreases frames@.len() - i,
        {
            let image = frames[i].to_bgra(width, height, global_palette);
            frames_bgra.push(image);
            frame_delays.push(frames[i].delay);
            assert(parts.take(i + 1) =~= parts.take(i as int).push(parts[i as int]));
            i = i + 1;
        }
        assert(parts.take(frames@.len() as int) =~= parts);
        if frames_bgra.len() == 0 {
            return Err(GifError::NoFrames);
        }
        Ok(GifData { width, height, frames_bgra, frame_delays })
    }

    /// Decodes the GIF in `bytes`: reads its header, then every frame up to the
    /// end of the stream, and converts each to a buffer of the logical screen. Fails with the
    /// decoder's message when the header or a frame cannot be read, and with
    /// `NoFrames` when the decoder reaches the end of the stream before any
    /// frame.
    pub fn new(bytes: &[u8]) -> (res: Result<GifData, GifError>)
        ensures
            decoded(res, bytes@),
    {
        let mut stream = match open_decoder(bytes) {
            Ok(stream) => stream,
            Err(text) => return Err(GifError::ReadInfo(text)),
        };
        let width = decoder_width(&stream);
        let height = decoder_height(&stream);
        let global_palette: Vec<u8> = match decoder_global_palette(&stream) {
            Some(table) => table,
            None => Vec::new(),
        };
        let mut frames: Vec<IndexedFrame> = Vec::new();
        loop
            invariant_except_break
                stream_live(stream),
            invariant
                has_gif_header(bytes@),
                stream_source(stream) == bytes@,
                frames_read(stream) == frames@.len(),
                frames@.len() <= bytes@.len(),
                stream_frames(bytes@, 0) == prepend(
                    frames@.map_values(|f: IndexedFrame| f@),
                    stream_frames(bytes@, frames@.len()),
                ),
            ensures
                stream_frames(bytes@, 0) matches Ok(all) && all == frames@.map_values(|f: IndexedFrame| f@),
            decreases bytes@.len() - frames@.len(),
        {
            let next = decoder_next_frame(&mut stream);
            let ghost k = frames@.len();
            match next {
                Ok(Some(frame)) => {
                    let ghost done = frames@.map_values(|f: IndexedFrame| f@);
                    frames.push(frame);
                    proof {
                        assert(frames@.map_values(|f: IndexedFrame| f@) =~= done + seq![frame@]);
                        lemma_prepend_twice(done, seq![frame@], stream_frames(bytes@, k + 1));
                    }
                },
                Ok(None) => {
                    proof {
                        assert(frames@.map_values(|f: IndexedFrame| f@) + Seq::<FrameParts>::empty()
                            =~= frames@.map_values(|f: IndexedFrame| f@));
                    }
                    break;
                },
                Err(text) => {
                    return Err(GifError::ReadFrame(text));
                },
            }
        }
        GifData::from_frames(width, height, global_palette.as_slice(), frames.as_slice())
    }
}

/// The frames of a stream are the outcomes of its reads in order: read
/// `k + i` hands out frame `i`, and the read after the last frame reports the
/// end of the stream (or lies past the input's length); when decoding fails,
/// the reads before the failing one handed out frames and the failing read's
/// message is the one reported.
pub proof fn lemma_stream_frames(bytes: Seq<u8>, k: nat)
    ensures
        stream_frames(bytes, k) matches Ok(frames) ==> {
            &&& forall|i: int|
                0 <= i < frames.len() ==> {
                    &&& (#[trigger] gif_frame_outcome(bytes, (k + i) as nat) matches Ok(Some(f)) && f == frames[i])
                    &&& k + i < bytes.len()
                }
            &&& gif_frame_outcome(bytes, k + frames.len()) is Ok
            &&& (gif_frame_outcome(bytes, k + frames.len()) matches Ok(None) || k + frames.len() >= bytes.len())
        },
        stream_frames(bytes, k) matches Err(message) ==> exists|j: nat|
            #![trigger gif_frame_outcome(bytes, j)]
            k <= j && (gif_frame_outcome(bytes, j) matches Err(m) && m == message) && forall|
                i: nat,
            |
                #![trigger gif_frame_outcome(bytes, i)]
                k <= i < j ==> gif_frame_outcome(bytes, i) matches Ok(Some(_)),
    decreases bytes.len() - k,
{
    match gif_frame_outcome(bytes, k) {
        Ok(Some(frame)) => {
            if k < bytes.len() {
                lemma_stream_frames(bytes, k + 1);
                if let Ok(later) = stream_frames(bytes, k + 1) {
                    let frames = seq![frame] + later;
                    assert forall|i: int| 0 <= i < frames.len() implies {
                        &&& (#[trigger] gif_frame_outcome(bytes, (k + i) as nat) matches Ok(Some(f)) && f == frames[i])
                        &&& k + i < bytes.len()
                    } by {
                        if i > 0 {
                            assert(frames[i] == later[i - 1]);
                            assert((k + i) as nat == ((k + 1) + (i - 1)) as nat);
                        }
                    }
                    assert(k + frames.len() == (k + 1) + later.len());
                }
                if let Err(message) = stream_frames(bytes, k + 1) {
                    let j = choose|j: nat|
                        #![trigger gif_frame_outcome(bytes, j)]
                        k + 1 <= j && (gif_frame_outcome(bytes, j) matches Err(m) && m == message)
                            && forall|i: nat|
                            #![trigger gif_frame_outcome(bytes, i)]
                            k + 1 <= i < j ==> gif_frame_outcome(bytes, i) matches Ok(Some(_));
                    assert forall|i: nat| #![trigger gif_frame_outcome(bytes, i)] k <= i < j implies gif_frame_outcome(
                        bytes,
                        i,
                    ) matches Ok(Some(_)) by {}
                }
            }
        },
        _ => {},
    }
}

/// What `GifData::new` hands back on failure: without a whole header the
/// decoder's header message; when a read fails the failing read's message;
/// when the reads reach the end before any frame, `NoFrames`.
pub proof fn lemma_decoded_errors(res: Result<GifData, GifError>, bytes: Seq<u8>)
    requires
        decoded(res, bytes),
    ensures
        !has_gif_header(bytes) ==> (res matches Err(GifError::ReadInfo(text)) && text@ == gif_header_error(bytes)),
        has_gif_header(bytes) ==> match stream_frames(bytes, 0) {
            Err(message) => (res matches Err(GifError::ReadFrame(text)) && text@ == message),
            Ok(frames) => frames.len() == 0 && screen_fits(le_u16(bytes, 6) as u16, le_u16(bytes, 8) as u16)
                ==> res matches Err(GifError::NoFrames),
        },
{
}

/// What `GifData::new` hands back on success, spelled out: the header's
/// screen size and, for every frame the reads handed out, in order, its delay
/// and an image of four bytes per screen pixel in which every pixel whose
/// index names a color of the frame's table (its own, or else the header's
/// global one) shows that color in blue, green, red order, fully opaque.
pub proof fn lemma_decoded_gif(gif: GifData, bytes: Seq<u8>)
    requires
        decoded(Ok(gif), bytes),
    ensures
        has_gif_header(bytes),
        gif.width == bytes[6] + 256 * bytes[7],
        gif.height == bytes[8] + 256 * bytes[9],
        stream_frames(bytes, 0) is Ok,
        ({
            let frames = stream_frames(bytes, 0)->Ok_0;
            &&& frames.len() > 0
            &&& gif.frames_bgra@.len() == frames.len()
            &&& gif.frame_delays@.len() == frames.len()
            &&& forall|i: int|
                #![trigger gif.frames_bgra@[i]]
                0 <= i < frames.len() ==> {
                    &&& gif_frame_outcome(bytes, i as nat) is Ok
                    &&& gif_frame_outcome(bytes, i as nat)->Ok_0 == Some(frames[i])
                    &&& gif.frame_delays@[i] == frames[i].0
                    &&& gif.frames_bgra@[i]@.len() == 4 * (gif.width * gif.height)
                    &&& forall|p: int|
                        #![trigger frames[i].4[p]]
                        0 <= p < gif.width * gif.height && p < frames[i].4.len() ==> {
                            let table = match frames[i].3 {
                                Some(local) => local,
                                None => match header_global_palette(bytes) {
                                    Some(global) => global,
                                    None => Seq::empty(),
                                },
                            };
                            let index = frames[i].4[p] as int;
                            3 * index + 2 < table.len() ==> {
                                &&& gif.frames_bgra@[i]@[4 * p] == table[3 * index + 2]
                                &&& gif.frames_bgra@[i]@[4 * p + 1] == table[3 * index + 1]
                                &&& gif.frames_bgra@[i]@[4 * p + 2] == table[3 * index]
                                &&& gif.frames_bgra@[i]@[4 * p + 3] == 255
                            }
                        }
                }
        }),
{
    lemma_stream_frames(bytes, 0);
    let frames = stream_frames(bytes, 0)->Ok_0;
    assert forall|i: int|
        #![trigger gif.frames_bgra@[i]]
        #![trigger frames[i]]
        #![trigger gif_frame_outcome(bytes, i as nat)]
        0 <= i < frames.len() implies {
        &&& gif_frame_outcome(bytes, i as nat) is Ok
        &&& gif_frame_outcome(bytes, i as nat)->Ok_0 == Some(frames[i])
        &&& gif.frame_delays@[i] == frames[i].0
        &&& gif.frames_bgra@[i]@.len() == 4 * (gif.width * gif.height)
        &&& forall|p: int|
            #![trigger frames[i].4[p]]
            0 <= p < gif.width * gif.height && p < frames[i].4.len() ==> {
                let table = match frames[i].3 {
                    Some(local) => local,
                    None => match header_global_palette(bytes) {
                        Some(global) => global,
                        None => Seq::empty(),
                    },
                };
                let index = frames[i].4[p] as int;
                3 * index + 2 < table.len() ==> {
                    &&& gif.frames_bgra@[i]@[4 * p] == table[3 * index + 2]
                    &&& gif.frames_bgra@[i]@[4 * p + 1] == table[3 * index + 1]
                    &&& gif.frames_bgra@[i]@[4 * p + 2] == table[3 * index]
                    &&& gif.frames_bgra@[i]@[4 * p + 3] == 255
                }
            }
    } by {
        let _ = gif_frame_outcome(bytes, (0 + i) as nat);
        assert((0 + i) as nat == i as nat);
        assert(is_frame_image(
            gif.frames_bgra@[i]@,
            frames[i],
            global_or_empty(bytes),
            gif.width as int * gif.height as int,
        ));
        assert forall|p: int|
            #![trigger frames[i].4[p]]
            0 <= p < gif.width * gif.height && p < frames[i].4.len() implies {
                let table = match frames[i].3 {
                    Some(local) => local,
                    None => match header_global_palette(bytes) {
                        Some(global) => global,
                        None => Seq::empty(),
                    },
                };
                let index = frames[i].4[p] as int;
                3 * index + 2 < table.len() ==> {
                    &&& gif.frames_bgra@[i]@[4 * p] == table[3 * index + 2]
                    &&& gif.frames_bgra@[i]@[4 * p + 1] == table[3 * index + 1]
                    &&& gif.frames_bgra@[i]@[4 * p + 2] == table[3 * index]
                    &&& gif.frames_bgra@[i]@[4 * p + 3] == 255
                }
            } by {
            crate::pixels::lemma_palette_colour(
                gif.frames_bgra@[i]@,
                frames[i],
                global_or_empty(bytes),
                gif.width * gif.height,
                p,
            );
        }
    }
}

/// A `gif::Decoder` with the default options reading from a byte slice: the
/// stream of frames still to be decoded. Verus sees nothing inside it; only
/// `open_decoder` makes one.
#[verifier::external_body]
pub struct FrameStream<'a> {
    decoder: gif::Decoder<&'a [u8]>,
}

/// The bytes a stream was opened on.
pub uninterp spec fn stream_source(stream: FrameStream) -> Seq<u8>;

/// How many frames a stream has handed out.
pub uninterp spec fn frames_read(stream: FrameStream) -> nat;

/// Whether every read on a stream so far handed out a frame.
pub uninterp spec fn stream_live(stream: FrameStream) -> bool;

/// What `gif::Decoder::read_next_frame` returns on a decoder opened on `bytes`
/// with the default options, at its `k`-th read (from 0), when every earlier
/// read returned a frame: the text of its error, the end of the stream, or
/// the frame's delay, width, height, local color table and indices.
pub uninterp spec fn gif_frame_outcome(bytes: Seq<u8>, k: nat) -> Result<
    Option<(u16, u16, u16, Option<Seq<u8>>, Seq<u8>)>,
    Seq<char>,
>;

/// The text of the error that `gif::Decoder::new` gives on `bytes`.
pub uninterp spec fn gif_header_error(bytes: Seq<u8>) -> Seq<char>;

/// Calls `gif::Decoder::new`, which is `DecodeOptions::new().read_info(..)`:
/// it reads the header and global color table with the default options
/// (indexed color output, 50 MB memory limit). It succeeds exactly on bytes
/// that start with a whole GIF header: signature, screen descriptor, the
/// announced global table and one byte more. The new stream has handed out no
/// frame yet. An error is handed back as its `Display` text.
#[verifier::external_body]
fn open_decoder<'a>(bytes: &'a [u8]) -> (res: Result<FrameStream<'a>, String>)
    ensures
        res is Ok <==> has_gif_header(bytes@),
        res matches Err(text) ==> text@ == gif_header_error(bytes@),
        res matches Ok(stream) ==> {
            &&& stream_source(stream) == bytes@
            &&& frames_read(stream) == 0
            &&& stream_live(stream)
        },
{
    match gif::Decoder::new(bytes) {
        Ok(decoder) => Ok(FrameStream { decoder }),
        Err(e) => Err(format!("{}", e)),
    }
}

/// Calls `gif::Decoder::width`: the logical screen width, bytes 6 and 7 of the
/// header (little-endian).
#[verifier::external_body]
fn decoder_width(stream: &FrameStream) -> (width: u16)
    ensures
        width == le_u16(stream_source(*stream), 6),
{
    stream.decoder.width()
}

/// Calls `gif::Decoder::height`: the logical screen height, bytes 8 and 9 of
/// the header (little-endian).
#[verifier::external_body]
fn decoder_height(stream: &FrameStream) -> (height: u16)
    ensures
        height == le_u16(stream_source(*stream), 8),
{
    stream.decoder.height()
}

/// Calls `gif::Decoder::global_palette` and copies the table out: the global
/// color table that the header announces, read right after the screen
/// descriptor, or `None` when it announces none.
#[verifier::external_body]
fn decoder_global_palette(stream: &FrameStream) -> (palette: Option<Vec<u8>>)
    ensures
        match palette {
            Some(table) => header_global_palette(stream_source(*stream)) == Some(table@),
            None => header_global_palette(stream_source(*stream)) is None,
        },
{
    match stream.decoder.global_palette() {
        Some(table) => Some(table.to_vec()),
        None => None,
    }
}

/// Calls `gif::Decoder::read_next_frame` and copies the frame's delay, size,
/// local color table and index buffer out; an error is handed back as its
/// `Display` text. It is called only while every earlier read returned a
/// frame (after an error the decoder's state is gone and a further read never
/// returns). Its outcome is `gif_frame_outcome` of the stream's bytes at this
/// read. Also claimed, from
/// the source: every frame takes its own 10-byte image descriptor from the
/// input, so a `k`-th frame needs more than `k` bytes.
#[verifier::external_body]
fn decoder_next_frame(stream: &mut FrameStream) -> (res: Result<Option<IndexedFrame>, String>)
    requires
        stream_live(*old(stream)),
    ensures
        stream_source(*final(stream)) == stream_source(*old(stream)),
        stream_live(*final(stream)) == (res matches Ok(Some(_))),
        frames_read(*final(stream)) == frames_read(*old(stream)) + if res matches Ok(Some(_)) {
            1nat
        } else {
            0nat
        },
        res matches Err(text) ==> gif_frame_outcome(stream_source(*old(stream)), frames_read(*old(stream)))
            matches Err(message) && message == text@,
        gif_frame_outcome(stream_source(*old(stream)), frames_read(*old(stream))) is Err ==> res is Err,
        res matches Ok(None) <==> gif_frame_outcome(stream_source(*old(stream)), frames_read(*old(stream)))
            matches Ok(None),
        res matches Ok(Some(frame)) ==> {
            &&& gif_frame_outcome(stream_source(*old(stream)), frames_read(*old(stream))) matches Ok(Some(parts))
            &&& parts == frame@
            &&& frames_read(*old(stream)) < stream_source(*old(stream)).len()
        },
{
    match stream.decoder.read_next_frame() {
        Ok(Some(frame)) => Ok(Some(IndexedFrame {
            delay: frame.delay,
            width: frame.width,
            height: frame.height,
            palette: frame.palette.clone(),
            buffer: frame.buffer.to_vec(),
        })),
        Ok(None) => Ok(None),
        Err(e) => Err(format!("{}", e)),
    }
}

} // verus!
