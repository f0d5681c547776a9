use vstd::prelude::*;
use vstd::string::*;

verus! {

/// The directory under which each camera's HLS output lives, one
/// subdirectory per camera name.
pub const HLS_BASE_PATH: &'static str = "hls";

/// The program that repackages the camera's H.264 stream as HLS.
pub const FFMPEG_PROGRAM: &'static str = "ffmpeg";

pub const SEGMENT_FILE: &'static str = "/output%03d.ts";
pub const PLAYLIST_FILE: &'static str = "/output.m3u8";

/// Writes one camera's frames, through ffmpeg, as HLS into
/// `hls_output_dir` (the directory as it is displayed).
#[derive(Debug)]
pub struct FFMpegWriter {
    pub hls_output_dir: String,
}

/// The ffmpeg arguments: raw H.264 on stdin, timestamps from the wall clock,
/// no re-encoding, HLS out with 2-second segments, 5 segments in the
/// playlist, old segments deleted, zero-padded segment names.
pub open spec fn ffmpeg_args_text(segment_path: Seq<char>, playlist_path: Seq<char>) -> Seq<Seq<char>> {
    seq![
        "-f"@, "h264"@,
        "-use_wallclock_as_timestamps"@, "1"@,
        "-i"@, "pipe:0"@,
        "-c"@, "copy"@,
        "-f"@, "hls"@,
        "-hls_time"@, "2"@,
        "-hls_list_size"@, "5"@,
        "-hls_flags"@, "delete_segments"@,
        "-hls_segment_filename"@, segment_path,
        playlist_path,
    ]
}

/// The directory of a camera's HLS output: `hls/<camera name>`, joined as
/// `Path::join` joins on Unix, where a name that is itself an absolute path
/// replaces the base.
pub open spec fn hls_output_dir_text(camera_name: Seq<char>) -> Seq<char> {
    if camera_name.len() > 0 && camera_name[0] == '/' {
        camera_name
    } else {
        HLS_BASE_PATH@ + "/"@ + camera_name
    }
}

pub fn hls_output_dir(camera_name: &str) -> (dir: String)
    ensures
        dir@ == hls_output_dir_text(camera_name@),
{
    if camera_name.unicode_len() > 0 && camera_name.get_char(0) == '/' {
        return String::from_str(camera_name);
    }
    let mut dir = String::from_str(HLS_BASE_PATH);
    dir.append("/");
    dir.append(camera_name);
    dir
}

impl FFMpegWriter {
    /// The writer of the named camera's output.
    pub fn for_camera(camera_name: &str) -> (writer: FFMpegWriter)
        ensures
            writer.hls_output_dir@ == hls_output_dir_text(camera_name@),
    {
        FFMpegWriter { hls_output_dir: hls_output_dir(camera_name) }
    }

    /// `<dir>/output%03d.ts`: the pattern of the segment files.
    pub open spec fn spec_segment_path(&self) -> Seq<char> {
        self.hls_output_dir@ + SEGMENT_FILE@
    }

    /// `<dir>/output.m3u8`: the playlist.
    pub open spec fn spec_playlist_path(&self) -> Seq<char> {
        self.hls_output_dir@ + PLAYLIST_FILE@
    }

    pub fn segment_path(&self) -> (path: String)
        ensures
            path@ == self.spec_segment_path(),
    {
        let mut path = self.hls_output_dir.clone();
        path.append(SEGMENT_FILE);
        path
    }

    pub fn playlist_path(&self) -> (path: String)
        ensures
            path@ == self.spec_playlist_path(),
    {
        let mut path = self.hls_output_dir.clone();
        path.append(PLAYLIST_FILE);
        path
    }

    /// The arguments that ffmpeg is started with.
    pub fn ffmpeg_args(&self) -> (args: Vec<String>)
        ensures
            args@.map_values(|a: String| a@) == ffmpeg_args_text(self.spec_segment_path(), self.spec_playlist_path()),
    {
        let mut args: Vec<String> = Vec::new();
        args.push(String::from_str("-f"));
        args.push(String::from_str("h264"));
        args.push(String::from_str("-use_wallclock_as_timestamps"));
        args.push(String::from_str("1"));
        args.push(String::from_str("-i"));
        args.push(String::from_str("pipe:0"));
        args.push(String::from_str("-c"));
        args.push(String::from_str("copy"));
        args.push(String::from_str("-f"));
        args.push(String::from_str("hls"));
        args.push(String::from_str("-hls_time"));
        args.push(String::from_str("2"));
        args.push(String::from_str("-hls_list_size"));
        args.push(String::from_str("5"));
        args.push(String::from_str("-hls_flags"));
        args.push(String::from_str("delete_segments"));
        args.push(String::from_str("-hls_segment_filename"));
        args.push(self.segment_path());
        args.push(self.playlist_path());
        assert(args@.map_values(|a: String| a@) =~= ffmpeg_args_text(self.spec_segment_path(), self.spec_playlist_path()));
        args
    }
}

} // verus!
