//! Streaming a song: the ffmpeg command that transcodes the song's file, and
//! the collection of the audio bytes that the running command puts out.

use vstd::prelude::*;
use ffmpeg_sidecar::command::FfmpegCommand;

verus! {

/// An ffmpeg command line under construction (`ffmpeg_sidecar`), seen from
/// here through the list of its arguments, `ffmpeg_args`.
#[verifier::external_type_specification]
#[verifier::external_body]
pub struct ExFfmpegCommand(FfmpegCommand);

/// The arguments given so far to an ffmpeg command, in order.
pub uninterp spec fn ffmpeg_args(cmd: FfmpegCommand) -> Seq<Seq<char>>;

/// Trusted: `FfmpegCommand::new`. A new command starts with the arguments
/// `-loglevel level+info`, which its log parser relies on. (Which ffmpeg
/// binary it runs depends on the files next to the program, and is not
/// stated.)
#[verifier::external_body]
fn ffmpeg_new() -> (cmd: FfmpegCommand)
    ensures
        ffmpeg_args(cmd) == Seq::<Seq<char>>::empty().push("-loglevel"@).push("level+info"@),
{
    FfmpegCommand::new()
}

/// Trusted: `FfmpegCommand::input`. Appends `-i` and the input location.
#[verifier::external_body]
fn ffmpeg_input(cmd: &mut FfmpegCommand, path: &str)
    ensures
        ffmpeg_args(*final(cmd)) == ffmpeg_args(*old(cmd)).push("-i"@).push(path@),
{
    cmd.input(path);
}

/// Trusted: `FfmpegCommand::codec_audio`. Appends `-c:a` and the codec name.
#[verifier::external_body]
fn ffmpeg_codec_audio(cmd: &mut FfmpegCommand, codec: &str)
    ensures
        ffmpeg_args(*final(cmd)) == ffmpeg_args(*old(cmd)).push("-c:a"@).push(codec@),
{
    cmd.codec_audio(codec);
}

/// Trusted: `FfmpegCommand::format`. Appends `-f` and the format name.
#[verifier::external_body]
fn ffmpeg_format(cmd: &mut FfmpegCommand, format: &str)
    ensures
        ffmpeg_args(*final(cmd)) == ffmpeg_args(*old(cmd)).push("-f"@).push(format@),
{
    cmd.format(format);
}

/// Trusted: `FfmpegCommand::no_video`. Appends `-vn`.
#[verifier::external_body]
fn ffmpeg_no_video(cmd: &mut FfmpegCommand)
    ensures
        ffmpeg_args(*final(cmd)) == ffmpeg_args(*old(cmd)).push("-vn"@),
{
    cmd.no_video();
}

/// Trusted: `FfmpegCommand::duration`. Appends `-t` and the duration.
#[verifier::external_body]
fn ffmpeg_duration(cmd: &mut FfmpegCommand, duration: &str)
    ensures
        ffmpeg_args(*final(cmd)) == ffmpeg_args(*old(cmd)).push("-t"@).push(duration@),
{
    cmd.duration(duration);
}

/// Trusted: `FfmpegCommand::output`. Appends the output location.
#[verifier::external_body]
fn ffmpeg_output(cmd: &mut FfmpegCommand, path: &str)
    ensures
        ffmpeg_args(*final(cmd)) == ffmpeg_args(*old(cmd)).push(path@),
{
    cmd.output(path);
}

/// The arguments of the command that streams the file at `path`: the first
/// 20 seconds of its audio, copied without re-encoding into FLAC, with no
/// video, written to standard output.
pub open spec fn stream_args(path: Seq<char>) -> Seq<Seq<char>> {
    seq![
        "-loglevel"@, "level+info"@,
        "-i"@, path,
        "-c:a"@, "copy"@,
        "-f"@, "flac"@,
        "-vn"@,
        "-t"@, "20s"@,
        "-"@
    ]
}

/// The ffmpeg command that streams the audio file at `path`.
pub fn stream_command(path: &str) -> (cmd: FfmpegCommand)
    ensures
        ffmpeg_args(cmd) == stream_args(path@),
{
    let mut cmd = ffmpeg_new();
    ffmpeg_input(&mut cmd, path);
    ffmpeg_codec_audio(&mut cmd, "copy");
    ffmpeg_format(&mut cmd, "flac");
    ffmpeg_no_video(&mut cmd);
    ffmpeg_duration(&mut cmd, "20s");
    ffmpeg_output(&mut cmd, "-");
    assert(ffmpeg_args(cmd) =~= stream_args(path@));
    cmd
}

/// What the running ffmpeg command reports. Only its output chunks carry
/// audio; logs, progress reports and the end of the run carry none.
#[derive(Debug)]
pub enum StreamEvent {
    OutputChunk(Vec<u8>),
    Other,
}

/// The audio bytes that an event carries.
pub open spec fn event_bytes(e: StreamEvent) -> Seq<u8> {
    match e {
        StreamEvent::OutputChunk(c) => c@,
        StreamEvent::Other => Seq::empty(),
    }
}

/// The audio that a run's events give: their chunks, in order, one after
/// the other.
pub open spec fn stream_output(events: Seq<StreamEvent>) -> Seq<u8>
    decreases events.len(),
{
    if events.len() == 0 {
        Seq::empty()
    } else {
        stream_output(events.drop_last()) + event_bytes(events.last())
    }
}

/// Takes one event of the running command into the audio collected so far.
pub fn absorb_event(collected: &mut Vec<u8>, event: StreamEvent)
    ensures
        final(collected)@ == old(collected)@ + event_bytes(event),
{
    match event {
        StreamEvent::OutputChunk(mut chunk) => {
            collected.append(&mut chunk);
        },
        StreamEvent::Other => {
            assert(old(collected)@ + Seq::<u8>::empty() =~= old(collected)@);
        },
    }
}

/// The audio of all the events of a run, collected one event after the other.
pub fn collect_stream_output(events: Vec<StreamEvent>) -> (r: Vec<u8>)
    ensures
        r@ == stream_output(events@),
{
    let ghost all = events@;
    let mut collected: Vec<u8> = Vec::new();
    for e in it: events
        invariant
            it.seq() == all,
            collected@ == stream_output(all.take(it.index() as int)),
    {
        proof {
            let n = it.index() as int;
            assert(all.take(n + 1).drop_last() =~= all.take(n));
            assert(all.take(n + 1).last() == e);
        }
        absorb_event(&mut collected, e);
    }
    assert(all.take(all.len() as int) =~= all);
    collected
}

/// The audio of two runs of events one after the other is the audio of the
/// first followed by the audio of the second: no chunk is lost, repeated or
/// moved.
pub proof fn law_stream_output_concat(a: Seq<StreamEvent>, b: Seq<StreamEvent>)
    ensures
        stream_output(a + b) == stream_output(a) + stream_output(b),
    decreases b.len(),
{
    if b.len() == 0 {
        assert(a + b =~= a);
        assert(stream_output(a) + Seq::<u8>::empty() =~= stream_output(a));
    } else {
        assert((a + b).drop_last() =~= a + b.drop_last());
        assert((a + b).last() == b.last());
        law_stream_output_concat(a, b.drop_last());
        assert(stream_output(a) + stream_output(b.drop_last()) + event_bytes(b.last())
            =~= stream_output(a) + (stream_output(b.drop_last()) + event_bytes(b.last())));
    }
}


/// Every output chunk goes into the collected audio whole, after what came
/// before it, and any other event adds nothing: the audio of a run is its
/// chunks' bytes, in event order, none lost or changed.
pub proof fn law_stream_chunks_whole(events: Seq<StreamEvent>, chunk: Vec<u8>)
    ensures
        event_bytes(StreamEvent::OutputChunk(chunk)) == chunk@,
        stream_output(events.push(StreamEvent::OutputChunk(chunk))) == stream_output(events) + chunk@,
        stream_output(events.push(StreamEvent::Other)) == stream_output(events),
        stream_output(Seq::<StreamEvent>::empty()) == Seq::<u8>::empty(),
        stream_output(seq![StreamEvent::OutputChunk(chunk)]) == chunk@,
{
    assert(events.push(StreamEvent::OutputChunk(chunk)).drop_last() =~= events);
    assert(events.push(StreamEvent::Other).drop_last() =~= events);
    assert(stream_output(events) + Seq::<u8>::empty() =~= stream_output(events));
    let one = seq![StreamEvent::OutputChunk(chunk)];
    assert(one.drop_last() =~= Seq::<StreamEvent>::empty());
    assert(Seq::<u8>::empty() + chunk@ =~= chunk@);
}

} // verus!
