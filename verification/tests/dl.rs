use mk_dl_bot::dl::ffprobe::{FFProbe, FFProbeError};
use mk_dl_bot::dl::spawn::SpawnError;
use mk_dl_bot::dl::tmpfile::TmpFileError;
use mk_dl_bot::dl::yt_dlp::{YtDlpError, YtDlpFormat, YtDlpInfo};
use mk_dl_bot::dl::{prepare_download, DownloadError, DownloadPlan, Downloader};

fn fmt(id: &str) -> YtDlpFormat {
    YtDlpFormat {
        format_id: id.to_string(),
        format_note: Some("720p".to_string()),
        audio_channels: None,
        width: Some(1280),
        height: Some(720),
        ext: "mp4".to_string(),
        vcodec: None,
        acodec: None,
        vbr: Some(1),
        abr: None,
    }
}

fn info(formats: Vec<YtDlpFormat>) -> YtDlpInfo {
    YtDlpInfo { id: "v".to_string(), title: "t".to_string(), formats }
}

#[test]
fn downloaders_by_host() {
    assert_eq!(Downloader::for_host("www.youtube.com"), Downloader::YouTube);
    assert_eq!(Downloader::for_host("youtu.be"), Downloader::YouTube);
    assert_eq!(Downloader::for_host("www.tiktok.com"), Downloader::TikTok);
    assert_eq!(Downloader::for_host("vm.tiktok.com"), Downloader::TikTok);
    assert_eq!(Downloader::for_host("youtube.com"), Downloader::Default);
    assert_eq!(Downloader::YouTube.name(), "YouTube");
    assert_eq!(Downloader::TikTok.name(), "TikTok");
    assert_eq!(Downloader::Default.name(), "Default");
    assert_eq!(Downloader::YouTube.fallback(), Downloader::Default);
    assert_eq!(Downloader::TikTok.fallback(), Downloader::Default);
    assert_eq!(Downloader::Default.fallback(), Downloader::Default);
}

#[test]
fn prepare_download_from_messages() {
    let t = prepare_download("watch this https://youtu.be/abc now").ok().unwrap();
    assert_eq!(t.downloader, Downloader::YouTube);
    assert_eq!(t.url.as_str(), "https://youtu.be/abc");
    let t = prepare_download("https://vm.tiktok.com/ZM123/").ok().unwrap();
    assert_eq!(t.downloader, Downloader::TikTok);
    let t = prepare_download("https://vimeo.com/123").ok().unwrap();
    assert_eq!(t.downloader, Downloader::Default);
    assert!(matches!(prepare_download("no link here"), Err(DownloadError::NotAnURL)));
}

#[test]
fn plans() {
    let mut audio = fmt("140");
    audio.abr = Some(5);
    audio.vbr = None;
    let i = info(vec![fmt("136"), audio, fmt("0")]);
    assert_eq!(Downloader::YouTube.plan(&i).ok(), Some(DownloadPlan::Joined { video: 2, audio: 1 }));
    assert_eq!(Downloader::TikTok.plan(&i).ok(), Some(DownloadPlan::Single(2)));
    assert_eq!(Downloader::Default.plan(&i).ok(), Some(DownloadPlan::Single(2)));
    let none = info(vec![]);
    assert!(matches!(Downloader::Default.plan(&none), Err(DownloadError::NoFormatFound)));
    assert!(matches!(Downloader::YouTube.plan(&info(vec![fmt("1")])), Err(DownloadError::NoFormatFound)));
    assert!(matches!(Downloader::TikTok.plan(&info(vec![fmt("1")])), Err(DownloadError::NoFormatFound)));
    assert_eq!(Downloader::joined_file_name(&i, &i.formats[0]), "v.mp4");
}

#[test]
fn download_errors() {
    assert_eq!(DownloadError::NotAnURL.message(), "no url or malformed url were provided");
    assert_eq!(
        DownloadError::NoFormatFound.message(),
        "no best format found. you may want to specify one yourself"
    );
    assert_eq!(DownloadError::MakePathError.message(), "failed to make path for download file");
    let e: DownloadError = TmpFileError::MakePathError.into();
    assert!(matches!(e, DownloadError::MakePathError));
    let e = DownloadError::from_spawn_error(SpawnError::ErrorMessage("bad".to_string()));
    assert_eq!(e.message(), "ffmpeg error - bad");
    let e = DownloadError::from_yt_dlp_error(YtDlpError::ErrorMessage("gone".to_string()));
    assert_eq!(e.message(), "yt-dlp error - gone");
}

#[test]
fn spawn_errors_and_status() {
    assert!(SpawnError::check_status(true, b"anything").is_ok());
    match SpawnError::check_status(false, "stderr test".as_bytes()) {
        Err(SpawnError::ErrorMessage(m)) => assert_eq!(m, "stderr test"),
        _ => panic!("SpawnError is not ErrorMessage!"),
    }
    assert!(matches!(SpawnError::check_status(false, &[0xff, 0xfe]), Err(SpawnError::UtfError(_))));
    let io = std::io::Error::new(std::io::ErrorKind::NotFound, "no such program");
    assert_eq!(SpawnError::CommandError(io).message(), "Command::new - no such program");
    let io = std::io::Error::new(std::io::ErrorKind::Other, "closed");
    assert_eq!(SpawnError::PipeError(io).message(), "pipe error - closed");
    assert_eq!(SpawnError::NoStdErr.message(), "spawned process has closed stderr!");
    let utf = std::str::from_utf8(&[0xff]).unwrap_err();
    assert_eq!(SpawnError::from(utf).message(), "Error while decoding UTF8");
    let e: SpawnError = std::io::Error::new(std::io::ErrorKind::Other, "x").into();
    assert!(matches!(e, SpawnError::CommandError(_)));
}

#[test]
fn ffprobe_command_and_errors() {
    assert_eq!(FFProbe::program(), "ffprobe");
    assert_eq!(
        FFProbe::probe_args("/tmp/v.mp4"),
        vec!["-v", "quiet", "-print_format", "json", "-show_streams", "/tmp/v.mp4"]
    );
    assert_eq!(FFProbeError::JsonError.message(), "ffprobe json error");
    let e: FFProbeError = SpawnError::NoStdErr.into();
    assert_eq!(e.message(), "spawned process has closed stderr!");
}
