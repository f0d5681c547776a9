use rioting::config::{Config};
use rioting::hls::{hls_output_dir, FFMpegWriter};
use rioting::server::{hls_files_dir, hls_mount_path, listen_address, ptz_reply, PtzReply, NO_CACHE};
use rioting::stream::{after_stream, StreamNext, STREAM_RETRY_SECS};

#[test]
fn hls_output_paths() {
    let w = FFMpegWriter { hls_output_dir: "hls/front-door".to_string() };
    assert_eq!(w.segment_path(), "hls/front-door/output%03d.ts");
    assert_eq!(w.playlist_path(), "hls/front-door/output.m3u8");
}

#[test]
fn ffmpeg_arguments() {
    let w = FFMpegWriter { hls_output_dir: "hls/garden".to_string() };
    assert_eq!(
        w.ffmpeg_args(),
        vec![
            "-f", "h264", "-use_wallclock_as_timestamps", "1", "-i", "pipe:0", "-c", "copy", "-f",
            "hls", "-hls_time", "2", "-hls_list_size", "5", "-hls_flags", "delete_segments",
            "-hls_segment_filename", "hls/garden/output%03d.ts", "hls/garden/output.m3u8",
        ]
    );
}

#[test]
fn hls_is_mounted_per_camera() {
    assert_eq!(hls_mount_path("front-door"), "/hls/front-door");
}

#[test]
fn server_listens_on_all_interfaces() {
    let config = Config { cameras: vec![], server_port: "3000".to_string() };
    assert_eq!(listen_address(&config), "0.0.0.0:3000");
}

#[test]
fn ptz_replies() {
    assert_eq!(ptz_reply(false, true), PtzReply::UnknownCamera);
    assert_eq!(ptz_reply(false, false).status_code(), 404);
    assert_eq!(ptz_reply(true, true).status_code(), 200);
    assert_eq!(ptz_reply(true, false).status_code(), 500);
}

#[test]
fn stream_end_decisions() {
    assert_eq!(after_stream(true), StreamNext::Stop);
    assert_eq!(after_stream(false), StreamNext::RetryAfterSecs(2));
    assert_eq!(STREAM_RETRY_SECS, 2);
}

#[test]
fn responses_are_never_cached() {
    assert_eq!(NO_CACHE, "no-cache, no-store");
}

#[test]
fn hls_output_directories() {
    assert_eq!(hls_output_dir("front-door"), "hls/front-door");
    assert_eq!(hls_output_dir("/srv/cam"), "/srv/cam");
    assert_eq!(hls_output_dir(""), "hls/");
    assert_eq!(hls_files_dir("garden"), "hls/garden");
    assert_eq!(FFMpegWriter::for_camera("garden").playlist_path(), "hls/garden/output.m3u8");
}

#[test]
fn served_path_matches_written_directory() {
    assert_eq!(hls_mount_path("garden"), format!("/{}", hls_output_dir("garden")));
}
