use videofix::metadata::{
    find_stream_by_type, get_audio_metadata, get_codec, get_container, get_metadata,
    get_pix_fmt, get_video_metadata, MetadataError, ProbeReport, ProbeStream,
};

fn stream(index: i64, kind: Option<&str>, codec: Option<&str>, pix_fmt: Option<&str>) -> ProbeStream {
    ProbeStream {
        index,
        codec_type: kind.map(|s| s.to_string()),
        codec_name: codec.map(|s| s.to_string()),
        pix_fmt: pix_fmt.map(|s| s.to_string()),
        channels: None,
    }
}

fn report(streams: Vec<ProbeStream>) -> ProbeReport {
    ProbeReport {
        filename: "clip.mp4".to_string(),
        format_name: "mov,mp4,m4a,3gp".to_string(),
        duration: Some("120.5".to_string()),
        streams,
    }
}

fn good_streams() -> Vec<ProbeStream> {
    let mut audio = stream(1, Some("audio"), Some("aac"), None);
    audio.channels = Some(6);
    vec![
        stream(0, Some("video"), Some("h264"), Some("yuv420p")),
        audio,
        stream(2, Some("subtitle"), Some("mov_text"), None),
        stream(3, None, Some("bin_data"), None),
    ]
}

#[test]
fn container_is_text_before_first_comma() {
    assert_eq!(get_container(&report(vec![])), "mov");
    let mut r = report(vec![]);
    r.format_name = "matroska".to_string();
    assert_eq!(get_container(&r), "matroska");
    r.format_name = ",avi".to_string();
    assert_eq!(get_container(&r), "");
    r.format_name = "".to_string();
    assert_eq!(get_container(&r), "");
}

#[test]
fn metadata_from_complete_report() {
    let m = get_metadata(&report(good_streams())).ok().unwrap();
    assert_eq!(m.container, "mov");
    assert_eq!(m.duration, Some("120.5".to_string()));
    assert_eq!(m.video.index, 0);
    assert_eq!(m.video.codec, "h264");
    assert_eq!(m.video.pix_fmt, "yuv420p");
    assert_eq!(m.audio.index, 1);
    assert_eq!(m.audio.codec, "aac");
    assert_eq!(m.audio.channels, 6);
}

#[test]
fn missing_channels_read_as_zero() {
    let r = report(vec![stream(4, Some("audio"), Some("mp3"), None)]);
    let a = get_audio_metadata(&r).ok().unwrap();
    assert_eq!(a.channels, 0);
    assert_eq!(a.index, 4);
}

#[test]
fn stream_lookup_picks_the_single_match() {
    let r = report(good_streams());
    assert_eq!(find_stream_by_type(&r, "subtitle").ok().unwrap().index, 2);
    assert_eq!(find_stream_by_type(&r, "audio").ok().unwrap().index, 1);
    match find_stream_by_type(&r, "data").err().unwrap() {
        MetadataError::NoStream { kind, file } => {
            assert_eq!(kind, "data");
            assert_eq!(file, "clip.mp4");
        }
        _ => panic!("expected NoStream"),
    }
}

#[test]
fn two_video_streams_are_refused() {
    let mut streams = good_streams();
    streams.push(stream(7, Some("video"), Some("mjpeg"), Some("yuvj420p")));
    let r = report(streams);
    match get_video_metadata(&r).err().unwrap() {
        MetadataError::MultipleStreams { kind, file } => {
            assert_eq!(kind, "video");
            assert_eq!(file, "clip.mp4");
        }
        _ => panic!("expected MultipleStreams"),
    }
    assert!(get_metadata(&r).is_err());
}

#[test]
fn no_audio_stream_is_refused() {
    let r = report(vec![stream(0, Some("video"), Some("h264"), Some("yuv420p"))]);
    match get_metadata(&r).err().unwrap() {
        MetadataError::NoStream { kind, .. } => assert_eq!(kind, "audio"),
        _ => panic!("expected NoStream"),
    }
}

#[test]
fn audio_error_comes_before_video_error() {
    let r = report(vec![]);
    match get_metadata(&r).err().unwrap() {
        MetadataError::NoStream { kind, .. } => assert_eq!(kind, "audio"),
        _ => panic!("expected NoStream"),
    }
}

#[test]
fn missing_codec_and_pix_fmt() {
    let s = stream(5, Some("video"), None, None);
    match get_codec(&s).err().unwrap() {
        MetadataError::NoCodec { index } => assert_eq!(index, 5),
        _ => panic!("expected NoCodec"),
    }
    match get_pix_fmt(&s).err().unwrap() {
        MetadataError::NoPixFmt { index } => assert_eq!(index, 5),
        _ => panic!("expected NoPixFmt"),
    }
    let mut streams = good_streams();
    streams[0].pix_fmt = None;
    match get_metadata(&report(streams)).err().unwrap() {
        MetadataError::NoPixFmt { index } => assert_eq!(index, 0),
        _ => panic!("expected NoPixFmt"),
    }
}
