//! The value types and extension wrappers around the object model: status
//! codes, ratings, streaming options, format wire forms, task handles, the
//! subsystem registry, and the plugin lifecycle.

use aimp::error::Error;
use aimp::stream::seek_outcome;
use aimp::stream::StreamError;
use aimp::file::clipping_from_parts;
use aimp::decoders::AudioDecoderBuilder;
use aimp::decoders::AudioDecoderBuilderWrapper;
use aimp::decoders::CreateDecoderOutcome;
use aimp::error::E_FAIL;
use aimp::error::S_OK;
use aimp::file::join_ext_list;
use aimp::file::FileClipping;
use aimp::file::FileInfoRating;
use aimp::file::FileStreamingOptions;
use aimp::file::FILE_STREAMING_CREATE_NEW;
use aimp::file::FILE_STREAMING_READ_WRITE;
use aimp::plugin::NOTIFY_SERVICE_ADDED;
use aimp::plugin::NOTIFY_SERVICE_REMOVED;
use aimp::stream::seek_request;
use aimp::stream::SeekPos;
use aimp::stream::StreamSeekFrom;
use aimp::threading::TaskAction;
use aimp::ErrorKind;
use aimp::Hresult;
use aimp::Iid;
use aimp::InterfacePtr;
use aimp::Plugin;
use aimp::PluginInfo;
use aimp::PluginWrapper;
use aimp::ServiceRegistry;
use aimp::TaskHandle;
use aimp::Wrapper;

#[test]
fn hresult_into_result() {
    assert!(Hresult(S_OK).into_result().is_ok());
    let err = Hresult(E_FAIL).into_result().unwrap_err();
    assert_eq!(err.kind, ErrorKind::Hresult(E_FAIL));
    assert!(err.desc.is_none());
    let described = Hresult(E_FAIL)
        .with_error_info("stream closed".to_string())
        .unwrap_err();
    assert_eq!(described.desc.as_deref(), Some("stream closed"));
}

#[test]
fn rating_accepts_zero_to_five() {
    assert!(FileInfoRating::new(-1).is_none());
    assert_eq!(FileInfoRating::new(0).unwrap().value(), 0);
    assert_eq!(FileInfoRating::new(5).unwrap().value(), 5);
    assert!(FileInfoRating::new(6).is_none());
}

#[test]
fn streaming_options_accumulate_flags() {
    let opts = FileStreamingOptions::new();
    assert_eq!(opts.effective_flags(), 0);
    let opts = opts.create_new(true).read_write(true);
    assert_eq!(
        opts.effective_flags(),
        FILE_STREAMING_CREATE_NEW | FILE_STREAMING_READ_WRITE
    );
    let opts = opts.read_write(false);
    assert_eq!(opts.effective_flags(), FILE_STREAMING_CREATE_NEW);
    // asking with a false condition before any flag is set keeps none
    let untouched = FileStreamingOptions::new().map_to_memory(false).read(false);
    assert_eq!(untouched.effective_flags(), 0);
}

#[test]
fn streaming_options_keep_the_clipping() {
    let clip = FileClipping::from_range(3, 10);
    assert_eq!(clip.offset, 3);
    assert_eq!(clip.size, 7);
    let opts = FileStreamingOptions::new().with_clipping(clip).read(true);
    assert_eq!(opts.clipping, Some(clip));
}

#[test]
fn ext_list_wire_form() {
    assert_eq!(
        join_ext_list(&vec!["mp3".to_string(), "ogg".to_string()]),
        "mp3;ogg;"
    );
    assert_eq!(join_ext_list(&vec![]), "");
}

#[test]
fn seek_request_maps_positions() {
    assert_eq!(
        seek_request(SeekPos::Start(16)),
        (16, StreamSeekFrom::Beginning)
    );
    assert_eq!(seek_request(SeekPos::End(-4)), (-4, StreamSeekFrom::End));
    assert_eq!(
        seek_request(SeekPos::Current(9)),
        (9, StreamSeekFrom::Current)
    );
}

#[test]
fn task_handle_actions() {
    assert_eq!(TaskHandle::new(0).raw(), None);
    let h = TaskHandle::new(41);
    assert_eq!(h.raw(), Some(41));
    assert_eq!(h.wait(), TaskAction::Wait(41));
    assert_eq!(TaskHandle::new(42).cancel(), TaskAction::Cancel(42));
    assert_eq!(
        TaskHandle::new(43).cancel_and_wait(),
        TaskAction::CancelAndWait(43)
    );
}

fn subsystem_iid(tag: u32) -> Iid {
    Iid::new(tag, 0x5372, 0x7654, 0x68, 0x72, 0x65, 0x61, 0x64, 0x73, 0, 0)
}

#[test]
fn service_registry_install_and_remove() {
    let mut reg = ServiceRegistry::new();
    let threads = subsystem_iid(1);
    let http = subsystem_iid(2);
    assert!(!reg.is_available(&threads));

    reg.install(threads, InterfacePtr { obj: 0, table: 0 });
    reg.install(http, InterfacePtr { obj: 1, table: 0 });
    assert_eq!(reg.get(&threads), Some(InterfacePtr { obj: 0, table: 0 }));
    assert_eq!(reg.get(&http), Some(InterfacePtr { obj: 1, table: 0 }));

    reg.install(threads, InterfacePtr { obj: 2, table: 0 });
    assert_eq!(reg.get(&threads), Some(InterfacePtr { obj: 2, table: 0 }));

    reg.remove(threads);
    assert!(!reg.is_available(&threads));
    assert!(reg.is_available(&http));
}

struct GoodPlugin;

impl Plugin for GoodPlugin {
    type Error = String;

    fn info() -> PluginInfo {
        PluginInfo {
            name: "demo".to_string(),
            author: "someone".to_string(),
            short_description: "a plugin that constructs".to_string(),
            full_description: None,
            category: 1,
        }
    }

    fn new() -> Result<Self, String> {
        Ok(GoodPlugin)
    }

    fn finish(self) -> Result<(), String> {
        Ok(())
    }
}

struct FailingPlugin;

impl Plugin for FailingPlugin {
    type Error = String;

    fn info() -> PluginInfo {
        PluginInfo {
            name: "broken".to_string(),
            author: "someone".to_string(),
            short_description: "a plugin that refuses to construct".to_string(),
            full_description: Some("always fails".to_string()),
            category: 2,
        }
    }

    fn new() -> Result<Self, String> {
        Err("no".to_string())
    }

    fn finish(self) -> Result<(), String> {
        Ok(())
    }
}

#[test]
fn plugin_lifecycle() {
    let mut w: PluginWrapper<GoodPlugin> = PluginWrapper::new();
    assert_eq!(w.info_get(0), Some("demo".to_string()));
    assert_eq!(w.info_get(3), None);
    assert_eq!(w.info_get(17), None);
    assert_eq!(w.info_get_categories(), 1);
    assert_eq!(w.initialize(), Hresult(S_OK));
    assert_eq!(w.finalize(), Hresult(S_OK));
}

#[test]
fn failing_plugin_reports_failure() {
    let mut w: PluginWrapper<FailingPlugin> = PluginWrapper::new();
    assert_eq!(w.info_get(3), Some("always fails".to_string()));
    assert_eq!(w.initialize(), Hresult(E_FAIL));
}

#[test]
fn notifications_drive_the_registry() {
    let w: PluginWrapper<GoodPlugin> = PluginWrapper::new();
    let mut registry = ServiceRegistry::new();
    let svc = subsystem_iid(7);
    let ptr = InterfacePtr { obj: 3, table: 0 };

    w.system_notification(&mut registry, NOTIFY_SERVICE_ADDED, Some((svc, ptr)));
    assert_eq!(registry.get(&svc), Some(ptr));

    w.system_notification(&mut registry, NOTIFY_SERVICE_REMOVED, Some((svc, ptr)));
    assert!(!registry.is_available(&svc));

    // an unknown notification, or one without data, changes nothing
    w.system_notification(&mut registry, 3, Some((svc, ptr)));
    assert!(!registry.is_available(&svc));
    w.system_notification(&mut registry, NOTIFY_SERVICE_ADDED, None);
    assert!(!registry.is_available(&svc));
}

#[test]
fn wrapper_carries_a_plugin_too() {
    let mut w: Wrapper<GoodPlugin> = Wrapper::new();
    assert_eq!(w.0.initialize(), Hresult(S_OK));
    assert_eq!(w.0.finalize(), Hresult(S_OK));
}

struct OneShotBuilder;

impl AudioDecoderBuilder for OneShotBuilder {
    type Decoder = u8;
    type Error = String;

    fn only_instance() -> bool {
        true
    }

    fn priority() -> Option<i32> {
        Some(9)
    }

    fn create(&self, _stream: InterfacePtr) -> Result<u8, String> {
        Ok(1)
    }
}

#[test]
fn decoder_builder_refuses_a_second_instance() {
    let mut w = AudioDecoderBuilderWrapper::new(OneShotBuilder);
    assert_eq!(w.get_priority(), 9);
    let stream = InterfacePtr { obj: 0, table: 0 };
    assert!(matches!(
        w.create_decoder(stream, false),
        CreateDecoderOutcome::Created(1)
    ));
    assert!(matches!(
        w.create_decoder(stream, false),
        CreateDecoderOutcome::Pending
    ));
    assert!(matches!(
        w.create_decoder(stream, true),
        CreateDecoderOutcome::Created(1)
    ));
}

#[test]
fn clipping_read_from_boundary_answer() {
    assert_eq!(
        clipping_from_parts(Hresult(S_OK), 10, 90),
        Some(FileClipping { offset: 10, size: 90 })
    );
    assert_eq!(clipping_from_parts(Hresult(E_FAIL), 10, 90), None);
}

#[test]
fn seek_outcome_surfaces_the_offset_error() {
    assert_eq!(seek_outcome(Hresult(S_OK)), Ok(()));
    assert_eq!(seek_outcome(Hresult(E_FAIL)), Err(StreamError::Offset));
}

#[test]
fn unexpected_error_kind() {
    let err = Error::from_kind(ErrorKind::Unexpected);
    assert_eq!(err.kind, ErrorKind::Unexpected);
    assert!(err.desc.is_none());
}
