//! The load protocol: dispatch, decode, copy, release.
//!
//! A single load call alternates between decisions this crate owns and
//! foreign work it cannot perform itself: probing whether the input is an
//! HDR format, invoking a decode entry point, copying the decoder-owned
//! buffer into owned memory, and releasing that buffer. [`Loader`] holds
//! every decision; an unverified driver performs the foreign call each
//! transition asks for and reports what came back.

use vstd::prelude::*;
use crate::image::{Image, LoadResult};

verus! {

/// Which form of input a load call was given.
#[derive(Clone, Copy, Debug, PartialEq, Eq)]
pub enum Source {
    File,
    Memory,
}

/// Which sample type the decoder is asked to produce.
#[derive(Clone, Copy, Debug, PartialEq, Eq)]
pub enum DecodeKind {
    EightBit,
    Float,
}

/// The foreign decode entry points, one per input form and decode path.
#[derive(Clone, Copy, Debug, PartialEq, Eq)]
pub enum EntryPoint {
    /// 8-bit decode of a file named by a path.
    LoadFile,
    /// Floating-point decode of a file named by a path.
    LoadFloatFile,
    /// 8-bit decode of an in-memory byte buffer.
    LoadMemory,
    /// Floating-point decode of an in-memory byte buffer.
    LoadFloatMemory,
}

/// What the driver must do next on behalf of the protocol.
#[derive(Clone, Copy, Debug, PartialEq, Eq)]
pub enum Action {
    /// Ask the decoder's cheap probe whether the input is an HDR format.
    Probe,
    /// Invoke this decode entry point with the loader's forced depth.
    Decode(EntryPoint),
}

/// Where a load call stands between its foreign calls.
#[derive(Clone, Copy, Debug, PartialEq, Eq)]
pub enum Phase {
    /// No foreign work requested yet.
    Start,
    /// The HDR probe is in flight.
    Probing,
    /// The chosen decode entry point is in flight.
    Decoding(DecodeKind),
    /// The decoder returned a buffer it owns, holding
    /// `width * height * depth` samples (the fields are the decode kind,
    /// width, height and effective depth); the driver must copy them out and
    /// then release the buffer.
    Copying(DecodeKind, usize, usize, usize),
    /// A fully formed image was handed out.
    Delivered(DecodeKind),
    /// The load ended in an error; no foreign buffer is outstanding.
    Failed,
}

/// The decode path chosen by format-detection dispatch: the floating-point
/// path exactly when HDR conversion is off and the probe reported an HDR
/// format.
pub open spec fn kind_for(convert_hdr: bool, probe_is_hdr: bool) -> DecodeKind {
    if !convert_hdr && probe_is_hdr {
        DecodeKind::Float
    } else {
        DecodeKind::EightBit
    }
}

/// The foreign entry point that serves a given input form and decode path.
pub open spec fn entry_for(source: Source, kind: DecodeKind) -> EntryPoint {
    match (source, kind) {
        (Source::File, DecodeKind::EightBit) => EntryPoint::LoadFile,
        (Source::File, DecodeKind::Float) => EntryPoint::LoadFloatFile,
        (Source::Memory, DecodeKind::EightBit) => EntryPoint::LoadMemory,
        (Source::Memory, DecodeKind::Float) => EntryPoint::LoadFloatMemory,
    }
}

/// The channel count actually present in a returned buffer: the forced depth
/// when forcing is active, else the depth the decoder reported. When forcing
/// is active the decoder's output slot still reports the source's natural
/// depth, not the converted depth present in the buffer.
pub open spec fn effective_depth_of(force_depth: usize, reported_depth: usize) -> usize {
    if force_depth != 0 {
        force_depth
    } else {
        reported_depth
    }
}

/// The message reported when a decode entry point returns no buffer; it
/// names the entry point that failed.
pub open spec fn failure_message_of(entry: EntryPoint) -> Seq<char> {
    match entry {
        EntryPoint::LoadFile => "stbi_load failed"@,
        EntryPoint::LoadFloatFile => "stbi_loadf failed"@,
        EntryPoint::LoadMemory => "stbi_load_from_memory failed"@,
        EntryPoint::LoadFloatMemory => "stbi_loadf_from_memory failed"@,
    }
}

/// Chooses the foreign entry point that serves an input form and decode path.
pub fn entry_point(source: Source, kind: DecodeKind) -> (e: EntryPoint)
    ensures
        e == entry_for(source, kind),
{
    match (source, kind) {
        (Source::File, DecodeKind::EightBit) => EntryPoint::LoadFile,
        (Source::File, DecodeKind::Float) => EntryPoint::LoadFloatFile,
        (Source::Memory, DecodeKind::EightBit) => EntryPoint::LoadMemory,
        (Source::Memory, DecodeKind::Float) => EntryPoint::LoadFloatMemory,
    }
}

impl EntryPoint {
    /// The error message constructed when this entry point fails.
    pub fn failure_message(&self) -> (m: String)
        ensures
            m@ == failure_message_of(*self),
    {
        match self {
            EntryPoint::LoadFile => "stbi_load failed".to_owned(),
            EntryPoint::LoadFloatFile => "stbi_loadf failed".to_owned(),
            EntryPoint::LoadMemory => "stbi_load_from_memory failed".to_owned(),
            EntryPoint::LoadFloatMemory => "stbi_loadf_from_memory failed".to_owned(),
        }
    }
}

/// Drives one load call through the foreign-decoder protocol.
///
/// The loader decides and counts; its driver performs each foreign call the
/// loader asks for and reports the outcome through the matching transition.
/// Well-formedness ties the release count to the phase, so a load that
/// delivers an image has asked for exactly one release of the foreign buffer
/// and a load that fails has asked for none.
pub struct Loader {
    pub source: Source,
    pub force_depth: usize,
    pub convert_hdr: bool,
    pub phase: Phase,
    /// How many times the protocol has asked the driver to release the
    /// decoder-owned buffer.
    pub releases_requested: usize,
}

impl Loader {
    /// The protocol invariant: the release count follows the phase, a load
    /// that suppresses HDR decoding never probes, and such a load never
    /// enters the floating-point decode path.
    pub open spec fn wf(self) -> bool {
        match self.phase {
            Phase::Start => self.releases_requested == 0,
            Phase::Probing => self.releases_requested == 0 && !self.convert_hdr,
            Phase::Decoding(kind) => self.releases_requested == 0 && (self.convert_hdr
                ==> kind == DecodeKind::EightBit),
            Phase::Copying(kind, _width, _height, _depth) => self.releases_requested == 1 && (
            self.convert_hdr ==> kind == DecodeKind::EightBit),
            Phase::Delivered(kind) => self.releases_requested == 1 && (self.convert_hdr
                ==> kind == DecodeKind::EightBit),
            Phase::Failed => self.releases_requested == 0,
        }
    }

    /// True when two loader states belong to the same load call: same input
    /// form, same forced depth, same HDR-conversion flag.
    pub open spec fn same_call(self, other: Loader) -> bool {
        &&& self.source == other.source
        &&& self.force_depth == other.force_depth
        &&& self.convert_hdr == other.convert_hdr
    }

    /// Starts a load call: input form, forced channel depth (zero lets the
    /// decoder choose) and whether HDR formats are converted to 8-bit.
    pub fn new(source: Source, force_depth: usize, convert_hdr: bool) -> (l: Loader)
        ensures
            l.wf(),
            l.source == source,
            l.force_depth == force_depth,
            l.convert_hdr == convert_hdr,
            l.phase == Phase::Start,
            l.releases_requested == 0,
    {
        Loader { source, force_depth, convert_hdr, phase: Phase::Start, releases_requested: 0 }
    }

    /// The first decision: unless the caller asked for HDR conversion, probe
    /// the input's format; with conversion on, skip the probe and decode on
    /// the 8-bit path directly.
    pub fn begin(&mut self) -> (a: Action)
        requires
            old(self).wf(),
            old(self).phase == Phase::Start,
        ensures
            final(self).wf(),
            final(self).same_call(*old(self)),
            final(self).releases_requested == 0,
            old(self).convert_hdr ==> {
                &&& a == Action::Decode(entry_for(old(self).source, DecodeKind::EightBit))
                &&& final(self).phase == Phase::Decoding(DecodeKind::EightBit)
            },
            !old(self).convert_hdr ==> a == Action::Probe && final(self).phase == Phase::Probing,
    {
        if self.convert_hdr {
            let entry = entry_point(self.source, DecodeKind::EightBit);
            self.phase = Phase::Decoding(DecodeKind::EightBit);
            Action::Decode(entry)
        } else {
            self.phase = Phase::Probing;
            Action::Probe
        }
    }

    /// Records the probe's answer and chooses the decode entry point: the
    /// floating-point one when the input is an HDR format, else the 8-bit
    /// one.
    pub fn on_probe(&mut self, is_hdr: bool) -> (e: EntryPoint)
        requires
            old(self).wf(),
            old(self).phase == Phase::Probing,
        ensures
            final(self).wf(),
            final(self).same_call(*old(self)),
            final(self).releases_requested == 0,
            final(self).phase == Phase::Decoding(kind_for(old(self).convert_hdr, is_hdr)),
            e == entry_for(old(self).source, kind_for(old(self).convert_hdr, is_hdr)),
    {
        let kind = if is_hdr {
            DecodeKind::Float
        } else {
            DecodeKind::EightBit
        };
        let entry = entry_point(self.source, kind);
        self.phase = Phase::Decoding(kind);
        entry
    }

    /// The decode entry point returned no buffer: the load fails with the
    /// error that names the entry point. Nothing was allocated, so nothing
    /// is copied and nothing is released.
    pub fn on_decode_failure<F>(&mut self) -> (r: LoadResult<F>)
        requires
            old(self).wf(),
            old(self).phase matches Phase::Decoding(_),
        ensures
            final(self).wf(),
            final(self).same_call(*old(self)),
            final(self).releases_requested == 0,
            final(self).phase == Phase::Failed,
            old(self).phase matches Phase::Decoding(kind) ==> (r matches LoadResult::Error(m)
                && m@ == failure_message_of(entry_for(old(self).source, kind))),
    {
        let kind = match self.phase {
            Phase::Decoding(k) => k,
            _ => unreached(),
        };
        let entry = entry_point(self.source, kind);
        let message = entry.failure_message();
        self.phase = Phase::Failed;
        LoadResult::Error(message)
    }

    /// The decode entry point returned a buffer it owns, reporting the
    /// image's width, height and natural channel count. Returns how many
    /// samples that buffer holds — `width * height * effective depth` — and
    /// the driver must copy exactly that many samples out of the buffer and
    /// then release it, exactly once, in that order.
    pub fn on_decode_success(&mut self, width: usize, height: usize, reported_depth: usize) -> (n:
        usize)
        requires
            old(self).wf(),
            old(self).phase matches Phase::Decoding(_),
            width * height <= usize::MAX,
            width * height * effective_depth_of(old(self).force_depth, reported_depth)
                <= usize::MAX,
        ensures
            final(self).wf(),
            final(self).same_call(*old(self)),
            final(self).releases_requested == 1,
            old(self).phase matches Phase::Decoding(kind) ==> final(self).phase == Phase::Copying(
                kind,
                width,
                height,
                effective_depth_of(old(self).force_depth, reported_depth),
            ),
            n == width * height * effective_depth_of(old(self).force_depth, reported_depth),
    {
        let kind = match self.phase {
            Phase::Decoding(k) => k,
            _ => unreached(),
        };
        let effective_depth = if self.force_depth != 0 {
            self.force_depth
        } else {
            reported_depth
        };
        let n = width * height * effective_depth;
        self.phase = Phase::Copying(kind, width, height, effective_depth);
        self.releases_requested = self.releases_requested + 1;
        n
    }

    /// Wraps the samples copied out of a successful 8-bit decode into the
    /// owned container, with the dimensions the protocol recorded.
    pub fn finish_u8<F>(&mut self, data: Vec<u8>) -> (r: LoadResult<F>)
        requires
            old(self).wf(),
            old(self).phase matches Phase::Copying(DecodeKind::EightBit, width, height, depth)
                && data@.len() == width * height * depth,
        ensures
            final(self).wf(),
            final(self).same_call(*old(self)),
            final(self).releases_requested == 1,
            final(self).phase == Phase::Delivered(DecodeKind::EightBit),
            old(self).phase matches Phase::Copying(_kind, width, height, depth) ==> (r matches
                LoadResult::ImageU8(img) && img.width == width && img.height == height && img.depth
                == depth && img.data@ == data@ && img.wf()),
    {
        let (width, height, depth) = match self.phase {
            Phase::Copying(_kind, w, h, d) => (w, h, d),
            _ => unreached(),
        };
        self.phase = Phase::Delivered(DecodeKind::EightBit);
        LoadResult::ImageU8(Image::new(width, height, depth, data))
    }

    /// Wraps the samples copied out of a successful floating-point decode
    /// into the owned container, with the dimensions the protocol recorded.
    pub fn finish_float<F>(&mut self, data: Vec<F>) -> (r: LoadResult<F>)
        requires
            old(self).wf(),
            old(self).phase matches Phase::Copying(DecodeKind::Float, width, height, depth)
                && data@.len() == width * height * depth,
        ensures
            final(self).wf(),
            final(self).same_call(*old(self)),
            final(self).releases_requested == 1,
            final(self).phase == Phase::Delivered(DecodeKind::Float),
            old(self).phase matches Phase::Copying(_kind, width, height, depth) ==> (r matches
                LoadResult::ImageF32(img) && img.width == width && img.height == height
                && img.depth == depth && img.data@ == data@ && img.wf()),
    {
        let (width, height, depth) = match self.phase {
            Phase::Copying(_kind, w, h, d) => (w, h, d),
            _ => unreached(),
        };
        self.phase = Phase::Delivered(DecodeKind::Float);
        LoadResult::ImageF32(Image::new(width, height, depth, data))
    }
}

/// Format-detection dispatch law: when HDR conversion is off, an input whose
/// probe reports an HDR format is decoded on the floating-point path and any
/// other input on the 8-bit path; when conversion is on, every input is
/// decoded on the 8-bit path.
pub proof fn lemma_hdr_dispatch(probe_is_hdr: bool)
    ensures
        probe_is_hdr ==> kind_for(false, probe_is_hdr) == DecodeKind::Float,
        !probe_is_hdr ==> kind_for(false, probe_is_hdr) == DecodeKind::EightBit,
        kind_for(true, probe_is_hdr) == DecodeKind::EightBit,
{
}

/// Effective-depth law: forcing zero keeps the decoder-reported channel
/// count, and a non-zero forced depth overrides it, whatever the source's
/// natural channel count was.
pub proof fn lemma_effective_depth(force_depth: usize, reported_depth: usize)
    ensures
        effective_depth_of(0, reported_depth) == reported_depth,
        force_depth != 0 ==> effective_depth_of(force_depth, reported_depth) == force_depth,
{
}

/// Release-discipline law: a load that delivered an image asked for exactly
/// one release of the foreign buffer, and a load that failed asked for none.
pub proof fn lemma_release_discipline(l: Loader)
    requires
        l.wf(),
    ensures
        l.phase matches Phase::Delivered(_) ==> l.releases_requested == 1,
        l.phase == Phase::Failed ==> l.releases_requested == 0,
{
}

/// HDR-suppression law: a load asked to convert HDR to 8-bit never probes
/// and never enters the floating-point decode path, so it can only deliver
/// an 8-bit image.
pub proof fn lemma_convert_hdr_stays_8bit(l: Loader)
    requires
        l.wf(),
        l.convert_hdr,
    ensures
        l.phase != Phase::Probing,
        !(l.phase matches Phase::Decoding(DecodeKind::Float)),
        !(l.phase matches Phase::Copying(DecodeKind::Float, _, _, _)),
        !(l.phase matches Phase::Delivered(DecodeKind::Float)),
{
}

} // verus!
