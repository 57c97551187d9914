use xfs_mgr::bridge::{CompletionRecord, SyncStep};
use xfs_mgr::config::Config;
use xfs_mgr::errors::{
    WFS_ERR_ALREADY_STARTED, WFS_ERR_CANCELED, WFS_ERR_INTERNAL_ERROR, WFS_ERR_INVALID_APP_HANDLE,
    WFS_ERR_INVALID_HPROVIDER, WFS_ERR_INVALID_HSERVICE, WFS_ERR_INVALID_SERVPROV,
    WFS_ERR_NO_BLOCKING_CALL, WFS_ERR_NOT_STARTED, WFS_ERR_NO_MORE_HANDLES,
    WFS_ERR_OP_IN_PROGRESS, WFS_SUCCESS,
};
use xfs_mgr::manager::{sync_step_result, Manager, SPI_VERSION_RANGE};
use xfs_mgr::provider::{ProviderExports, ProviderModule, SpiOp};
use xfs_mgr::version::{Version, VersionRange};

const THREAD: u32 = 7;

fn full_module() -> ProviderModule {
    ProviderModule { module_id: 1, exports: ProviderExports::all() }
}

fn demo_config() -> Config {
    let mut config = Config::new();
    config.add_logical_service("cwd".to_string(), "serviceprovider".to_string());
    config.add_service_provider("serviceprovider".to_string(), "some.dll".to_string());
    config
}

fn started_manager() -> Manager {
    let mut mgr = Manager::new();
    assert!(mgr.start_up(0).is_ok());
    mgr
}

#[test]
fn open_close_scenario() {
    let mut mgr = started_manager();
    let config = demo_config();

    let dllname = mgr.open_service(THREAD, &config, &"cwd".to_string());
    assert_eq!(dllname.unwrap(), "some.dll".to_string());

    let open_call = mgr.open_publish(full_module(), 0).unwrap();
    assert_eq!(open_call.h_service, 1);
    assert_eq!(open_call.request_id, 1);
    assert_eq!(open_call.spi_versions, SPI_VERSION_RANGE);
    assert_eq!(mgr.open_finish(1, WFS_SUCCESS), WFS_SUCCESS);

    let close_call = mgr.close_service(THREAD, 1).unwrap();
    assert_eq!(close_call.h_service, 1);
    assert_eq!(close_call.op, SpiOp::Close);
    assert_eq!(mgr.close_finish(1, WFS_SUCCESS), WFS_SUCCESS);

    assert_eq!(mgr.close_service(THREAD, 1), Err(WFS_ERR_INVALID_HSERVICE));
}

#[test]
fn open_resolution_failures() {
    let mgr = started_manager();
    let config = demo_config();
    assert_eq!(
        mgr.open_service(THREAD, &config, &"printer".to_string()),
        Err(WFS_ERR_INVALID_SERVPROV)
    );

    let mut broken = Config::new();
    broken.add_logical_service("cwd".to_string(), "missing".to_string());
    assert_eq!(
        mgr.open_service(THREAD, &broken, &"cwd".to_string()),
        Err(WFS_ERR_INVALID_SERVPROV)
    );
}

#[test]
fn open_failure_leaves_no_orphaned_session() {
    let mut mgr = started_manager();
    let open_call = mgr.open_publish(full_module(), 0).unwrap();
    assert_eq!(open_call.h_service, 1);

    let provider_error = WFS_ERR_INTERNAL_ERROR;
    assert_eq!(mgr.open_finish(1, provider_error), provider_error);
    assert_eq!(mgr.execute(THREAD, 1), Err(WFS_ERR_INVALID_HSERVICE));

    let reopened = mgr.open_publish(full_module(), 0).unwrap();
    assert_eq!(reopened.h_service, 1);
}

#[test]
fn open_needs_open_export() {
    let mut mgr = started_manager();
    let mut exports = ProviderExports::all();
    exports.wfp_open = false;
    let module = ProviderModule { module_id: 2, exports };
    assert_eq!(mgr.open_publish(module, 0), Err(WFS_ERR_INTERNAL_ERROR));
}

#[test]
fn dispatch_needs_matching_export() {
    let mut mgr = started_manager();
    let mut exports = ProviderExports::all();
    exports.wfp_execute = false;
    let module = ProviderModule { module_id: 3, exports };
    assert_eq!(mgr.open_publish(module, 0).unwrap().h_service, 1);
    assert_eq!(mgr.execute(THREAD, 1), Err(WFS_ERR_INTERNAL_ERROR));
    assert!(mgr.get_info(THREAD, 1).is_ok());
}

#[test]
fn request_ids_strictly_increase() {
    let mut mgr = started_manager();
    assert_eq!(mgr.open_publish(full_module(), 0).unwrap().request_id, 1);

    let first = mgr.execute(THREAD, 1).unwrap().request_id;
    let second = mgr.get_info(THREAD, 1).unwrap().request_id;
    let third = mgr.lock(THREAD, 1).unwrap().request_id;
    let fourth = mgr.unlock(THREAD, 1).unwrap().request_id;
    assert_eq!(first, 2);
    assert!(first < second && second < third && third < fourth);
}

#[test]
fn dispatch_covers_every_operation() {
    let mut mgr = started_manager();
    assert_eq!(mgr.open_publish(full_module(), 5).unwrap().h_service, 1);

    assert_eq!(mgr.register(THREAD, 1).unwrap().op, SpiOp::Register);
    assert_eq!(mgr.deregister(THREAD, 1).unwrap().op, SpiOp::Deregister);
    assert_eq!(mgr.execute(THREAD, 1).unwrap().op, SpiOp::Execute);
    assert_eq!(mgr.get_info(THREAD, 1).unwrap().op, SpiOp::GetInfo);
    assert_eq!(mgr.lock(THREAD, 1).unwrap().op, SpiOp::Lock);
    assert_eq!(mgr.unlock(THREAD, 1).unwrap().op, SpiOp::Unlock);
    assert_eq!(mgr.cancel_request(THREAD, 1).unwrap().op, SpiOp::CancelAsyncRequest);

    assert_eq!(mgr.get_trace_level(1), Ok(5));
    let call = mgr.set_trace_level(1, 9).unwrap();
    assert_eq!(call.op, SpiOp::SetTraceLevel);
    assert_eq!(mgr.get_trace_level(1), Ok(9));

    assert_eq!(mgr.execute(THREAD, 0), Err(WFS_ERR_INVALID_HSERVICE));
    assert_eq!(mgr.execute(THREAD, 2), Err(WFS_ERR_INVALID_HSERVICE));
}

#[test]
fn second_blocking_call_rejected() {
    let mut mgr = started_manager();
    assert_eq!(mgr.open_publish(full_module(), 0).unwrap().h_service, 1);

    let call = mgr.sync_dispatch_begin(THREAD, 1, SpiOp::Execute).unwrap();
    assert_eq!(call.op, SpiOp::Execute);
    assert!(mgr.is_blocking(THREAD));

    assert_eq!(
        mgr.sync_dispatch_begin(THREAD, 1, SpiOp::Execute),
        Err(WFS_ERR_OP_IN_PROGRESS)
    );
    assert_eq!(mgr.execute(THREAD, 1), Err(WFS_ERR_OP_IN_PROGRESS));
    assert!(!mgr.is_blocking(8));
    assert!(mgr.execute(8, 1).is_ok());

    let record = CompletionRecord { h_service: 1, request_id: call.request_id, result: WFS_SUCCESS };
    assert_eq!(mgr.sync_step(THREAD, None), SyncStep::Continue);
    assert_eq!(mgr.sync_step(THREAD, Some(record)), SyncStep::Done(WFS_SUCCESS));
    assert!(!mgr.is_blocking(THREAD));
}

#[test]
fn sync_dispatch_failure_unblocks() {
    let mut mgr = started_manager();
    assert_eq!(
        mgr.sync_dispatch_begin(THREAD, 1, SpiOp::Execute),
        Err(WFS_ERR_INVALID_HSERVICE)
    );
    assert!(!mgr.is_blocking(THREAD));
}

#[test]
fn cancel_blocking_call_stops_wait() {
    let mut mgr = started_manager();
    assert_eq!(mgr.open_publish(full_module(), 0).unwrap().h_service, 1);
    assert_eq!(mgr.cancel_blocking_call(THREAD), WFS_ERR_NO_BLOCKING_CALL);

    assert!(mgr.sync_dispatch_begin(THREAD, 1, SpiOp::Lock).is_ok());
    assert_eq!(mgr.cancel_blocking_call(THREAD), WFS_SUCCESS);
    assert!(mgr.is_blocking(THREAD));

    let step = mgr.sync_step(THREAD, None);
    assert_eq!(step, SyncStep::Canceled);
    assert_eq!(sync_step_result(step), WFS_ERR_CANCELED);
    assert!(!mgr.is_blocking(THREAD));
    assert_eq!(mgr.cancel_blocking_call(THREAD), WFS_ERR_NO_BLOCKING_CALL);
}

#[test]
fn release_dll_frees_the_session() {
    let mut mgr = started_manager();
    let module = ProviderModule { module_id: 77, exports: ProviderExports::all() };
    assert_eq!(mgr.open_publish(module, 0).unwrap().h_service, 1);

    assert_eq!(mgr.release_dll(42), WFS_ERR_INVALID_HPROVIDER);
    assert!(mgr.execute(THREAD, 1).is_ok());

    assert_eq!(mgr.release_dll(77), WFS_SUCCESS);
    assert_eq!(mgr.execute(THREAD, 1), Err(WFS_ERR_INVALID_HSERVICE));
    assert_eq!(mgr.release_dll(77), WFS_ERR_INVALID_HPROVIDER);
}

#[test]
fn start_up_and_clean_up_gate() {
    let mut mgr = Manager::new();
    assert!(!mgr.is_started());
    assert_eq!(mgr.execute(THREAD, 1), Err(WFS_ERR_NOT_STARTED));
    assert_eq!(mgr.clean_up(THREAD), WFS_ERR_NOT_STARTED);

    let version = mgr.start_up(0).unwrap();
    assert_eq!(version.version, Version::new_explicit(3, 0).value());
    assert_eq!(version.low_version, Version::new_explicit(2, 0).value());
    assert_eq!(version.high_version, Version::new_explicit(3, 30).value());
    assert_eq!(version.description, "Rust XFS Manager v2.00 to v3.30".to_string());
    assert!(mgr.is_started());

    assert_eq!(mgr.start_up(0).unwrap_err(), WFS_ERR_ALREADY_STARTED);

    assert!(mgr.open_publish(full_module(), 0).is_ok());
    assert_eq!(mgr.clean_up(THREAD), WFS_SUCCESS);
    assert!(!mgr.is_started());
    assert_eq!(mgr.execute(THREAD, 1), Err(WFS_ERR_NOT_STARTED));

    assert!(mgr.start_up(0).is_ok());
    assert_eq!(mgr.execute(THREAD, 1), Err(WFS_ERR_INVALID_HSERVICE));
}

#[test]
fn app_handle_lifecycle() {
    let mut mgr = started_manager();
    assert_eq!(mgr.create_app_handle(THREAD), Ok(1));
    assert_eq!(mgr.create_app_handle(THREAD), Ok(2));
    assert_eq!(mgr.destroy_app_handle(THREAD, 1), WFS_SUCCESS);
    assert_eq!(mgr.destroy_app_handle(THREAD, 1), WFS_ERR_INVALID_APP_HANDLE);
    assert_eq!(mgr.destroy_app_handle(THREAD, 0), WFS_ERR_INVALID_APP_HANDLE);
    assert_eq!(mgr.destroy_app_handle(THREAD, 60000), WFS_ERR_INVALID_APP_HANDLE);
    assert_eq!(mgr.create_app_handle(THREAD), Ok(1));
}

#[test]
fn app_handles_run_out() {
    let mut mgr = started_manager();
    for i in 0..8192u32 {
        assert_eq!(mgr.create_app_handle(THREAD), Ok(i + 1));
    }
    assert_eq!(mgr.create_app_handle(THREAD), Err(WFS_ERR_NO_MORE_HANDLES));
}

#[test]
fn blocking_hook_swaps() {
    let mut mgr = started_manager();
    assert_eq!(mgr.blocking_hook(), 0);
    assert_eq!(mgr.set_blocking_hook(THREAD, 5), Ok(0));
    assert_eq!(mgr.set_blocking_hook(THREAD, 9), Ok(5));
    assert_eq!(mgr.blocking_hook(), 9);
    assert_eq!(mgr.unhook_blocking_hook(THREAD), WFS_SUCCESS);
    assert_eq!(mgr.blocking_hook(), 0);
}

#[test]
fn spi_version_range_packs_versions() {
    let range = VersionRange::new_explicit(
        Version::new_explicit(3, 0),
        Version::new_explicit(3, 30),
    );
    assert_eq!(range.value(), SPI_VERSION_RANGE);
}
