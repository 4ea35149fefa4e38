use mk_dl_bot::dl::spawn::SpawnError;
use mk_dl_bot::dl::tmpfile::{TmpFile, TmpFileError};
use mk_dl_bot::dl::yt_dlp::{AudioFormat, Choice, VideoFormat, YtDlp, YtDlpError, YtDlpFormat, YtDlpInfo};

fn fmt(id: &str, ext: &str) -> YtDlpFormat {
    YtDlpFormat {
        format_id: id.to_string(),
        format_note: None,
        audio_channels: None,
        width: None,
        height: None,
        ext: ext.to_string(),
        vcodec: None,
        acodec: None,
        vbr: None,
        abr: None,
    }
}

fn video(id: &str, ext: &str, note: &str, w: u16, h: u16, vbr: u32) -> YtDlpFormat {
    YtDlpFormat {
        format_note: Some(note.to_string()),
        width: Some(w),
        height: Some(h),
        vbr: Some(vbr),
        vcodec: Some("avc1".to_string()),
        ..fmt(id, ext)
    }
}

fn audio(id: &str, abr: u32) -> YtDlpFormat {
    YtDlpFormat { abr: Some(abr), acodec: Some("mp4a".to_string()), ..fmt(id, "m4a") }
}

fn info(formats: Vec<YtDlpFormat>) -> YtDlpInfo {
    YtDlpInfo { id: "vid".to_string(), title: "A video".to_string(), formats }
}

fn sample() -> YtDlpInfo {
    let mut av = video("22", "mp4", "720p", 1280, 720, 5);
    av.acodec = Some("mp4a".to_string());
    info(vec![
        audio("139", 3),
        audio("140", 7),
        video("136", "mp4", "720p", 1280, 720, 20),
        video("137", "mp4", "1080p", 1920, 1080, 40),
        video("616", "mp4", "1080p Premium", 1920, 1080, 90),
        video("248", "webm", "1080p", 1920, 1080, 60),
        video("271", "mp4", "1440p", 2560, 1440, 80),
        av,
        audio("251", 7),
    ])
}

#[test]
fn best_formats() {
    let i = sample();
    assert_eq!(i.best_video_format().unwrap().format_id, "137");
    assert_eq!(i.best_audio_format().unwrap().format_id, "251");
    assert_eq!(i.best_av_format().unwrap().format_id, "22");
    assert_eq!(i.default_format().unwrap().format_id, "22");
    assert_eq!(i.best_index(Choice::Video), Some(3));
    assert_eq!(i.find_format_id("140"), Some(1));
    assert_eq!(i.find_format_id("0"), None);
}

#[test]
fn best_formats_ties_take_the_last() {
    let i = info(vec![audio("a", 5), audio("b", 5), audio("c", 4)]);
    assert_eq!(i.best_audio_format().unwrap().format_id, "b");
    let i = info(vec![
        video("x", "mp4", "720p", 1280, 720, 9),
        video("y", "mp4", "720p", 1280, 720, 9),
    ]);
    assert_eq!(i.best_video_format().unwrap().format_id, "y");
}

#[test]
fn no_candidates() {
    let i = info(vec![fmt("a", "mp4"), fmt("b", "webm")]);
    assert!(i.best_video_format().is_none());
    assert!(i.best_audio_format().is_none());
    assert!(i.best_av_format().is_none());
    assert_eq!(i.default_format().unwrap().format_id, "b");
    let empty = info(vec![]);
    assert!(empty.default_format().is_none());
}

#[test]
fn av_format_ranks_width_before_height() {
    let mut a = video("a", "mp4", "n", 1920, 800, 1);
    a.acodec = Some("x".to_string());
    let mut b = video("b", "mp4", "n", 1280, 1080, 1);
    b.acodec = Some("x".to_string());
    let i = info(vec![a, b]);
    assert_eq!(i.best_av_format().unwrap().format_id, "a");
}

#[test]
fn process_reads_none_codecs_as_absent() {
    let mut f = fmt("1", "mp4");
    f.acodec = Some("none".to_string());
    f.vcodec = Some("avc1".to_string());
    f.process();
    assert_eq!(f.acodec, None);
    assert_eq!(f.vcodec.as_deref(), Some("avc1"));
    f.process();
    assert_eq!(f.acodec, None);
    assert_eq!(f.vcodec.as_deref(), Some("avc1"));
    let mut i = info(vec![f, YtDlpFormat { vcodec: Some("none".to_string()), ..fmt("2", "m4a") }]);
    i.process_formats();
    assert_eq!(i.formats.len(), 2);
    assert_eq!(i.formats[1].vcodec, None);
    assert_eq!(i.formats[1].format_id, "2");
}

#[test]
fn video_and_audio_views() {
    let f = video("1", "mp4", "1080p Premium", 1920, 1080, 3);
    let v = VideoFormat::from_format(&f).unwrap();
    assert!(v.is_mp4());
    assert!(v.is_premium());
    assert_eq!((v.width, v.height, v.vbr), (1920, 1080, 3));
    assert!(VideoFormat::from_format(&fmt("2", "mp4")).is_none());
    assert!(AudioFormat::from_format(&f).is_none());
    assert_eq!(AudioFormat::from_format(&audio("3", 9)).unwrap().abr, 9);
}

#[test]
fn accept_info_refuses_empty() {
    assert!(matches!(YtDlp::accept_info(info(vec![])), Err(YtDlpError::NoFormats)));
    let mut f = fmt("1", "mp4");
    f.acodec = Some("none".to_string());
    let accepted = YtDlp::accept_info(info(vec![f])).ok().unwrap();
    assert_eq!(accepted.formats[0].acodec, None);
    assert_eq!(accepted.id, "vid");
}

#[test]
fn yt_dlp_command_lines_and_names() {
    assert_eq!(YtDlp::program(), "python");
    assert_eq!(YtDlp::info_args("https://youtu.be/x"), vec!["-m", "yt_dlp", "https://youtu.be/x", "-j"]);
    assert_eq!(
        YtDlp::download_args("u", "137", "/tmp/vid_137.mp4"),
        vec!["-m", "yt_dlp", "u", "-f", "137", "-o", "/tmp/vid_137.mp4", "--force-overwrites"]
    );
    let i = sample();
    assert_eq!(YtDlp::download_file_name(&i, &i.formats[3]), "vid_137.mp4");
    let file = TmpFile::new(Some("/tmp"), "vid_137.mp4").ok().unwrap();
    assert_eq!(file.path, "/tmp/vid_137.mp4");
    assert!(matches!(TmpFile::new(None, "x"), Err(TmpFileError::MakePathError)));
    assert!(YtDlp::downloaded(file, true).is_ok());
    let file = TmpFile::new(Some("/tmp"), "y").ok().unwrap();
    assert!(matches!(YtDlp::downloaded(file, false), Err(YtDlpError::NoFilePresent)));
}

#[test]
fn yt_dlp_errors() {
    let e: YtDlpError = SpawnError::ErrorMessage("boom".to_string()).into();
    assert!(matches!(&e, YtDlpError::ErrorMessage(m) if m == "boom"));
    assert_eq!(e.message(), "yt-dlp error - boom");
    let e: YtDlpError = SpawnError::NoStdErr.into();
    assert_eq!(e.message(), "spawned process has closed stderr!");
    let e: YtDlpError = TmpFileError::MakePathError.into();
    assert_eq!(e.message(), "make path error");
    let json = serde_json::from_str::<u8>("x").unwrap_err();
    let e: YtDlpError = json.into();
    assert_eq!(e.message(), "json parsing error");
    assert_eq!(YtDlpError::NoFormats.message(), "no formats were parsed");
    assert_eq!(YtDlpError::NoFilePresent.message(), "downloaded file doesn't exists");
}
