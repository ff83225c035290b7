use pollstate::def_methods::{
    Header, InfoResponse, LinkStats, LinksResponse, LinksSummary, MoveConfig, PackageInstance,
    PackagesConfigResponse, StatusResponse, StatusService, SuccessResponse, SuiEventsResponse,
    SuiObjectInstance,
};

#[test]
fn fresh_header_is_empty() {
    let h = Header::default();
    assert_eq!(h.method, "");
    assert!(h.method_uuid.is_none());
    assert!(h.data_uuid.is_none());
    assert!(h.key.is_none());
}

#[test]
fn link_stats_new_keeps_alias_only() {
    let s = LinkStats::new("localnet".to_string());
    assert_eq!(s.alias, "localnet");
    assert_eq!(s.status, "");
    assert_eq!(s.health_pct, "");
    assert_eq!(s.load_pct, "");
    assert_eq!(s.resp_time, "");
    assert_eq!(s.success_pct, "");
    assert_eq!(s.error_info, "");
}

#[test]
fn links_summary_starts_at_zero() {
    let s = LinksSummary::new();
    assert_eq!(s.success_on_first_attempt, 0);
    assert_eq!(s.success_on_retry, 0);
    assert_eq!(s.fail_network_down, 0);
    assert_eq!(s.fail_bad_request, 0);
    assert_eq!(s.fail_others, 0);
    assert_eq!(s, LinksSummary::default());
}

#[test]
fn links_response_placeholder() {
    let r = LinksResponse::new();
    assert_eq!(r.status, "DISABLED");
    assert_eq!(r.info, "INITIALIZING");
    assert!(r.summary.is_none());
    assert!(r.links.is_none());
    assert!(r.display.is_none());
    assert!(r.debug.is_none());
    assert!(r.header.method_uuid.is_none());
    assert!(r.header.data_uuid.is_none());
}

#[test]
fn info_response_placeholder() {
    let r = InfoResponse::new();
    assert_eq!(r.info, "Unknown Error");
    assert!(r.header.data_uuid.is_none());
}

#[test]
fn status_shapes_start_unknown() {
    let s = StatusService::new("proxy server".to_string());
    assert_eq!(s.label, "proxy server");
    assert!(s.status.is_none());
    assert!(s.status_info.is_none());
    assert!(s.help_info.is_none());
    assert!(s.pid.is_none());

    let r = StatusResponse::new();
    assert!(r.status.is_none());
    assert!(r.status_info.is_none());
    assert!(r.client_version.is_none());
    assert!(r.network_version.is_none());
    assert!(r.asui_selection.is_none());
    assert!(r.services.is_none());
    assert!(r.display.is_none());
    assert!(r.debug.is_none());
    assert_eq!(r, StatusResponse::default());
}

#[test]
fn events_and_success_placeholders() {
    let e = SuiEventsResponse::new();
    assert!(e.events.is_none());
    assert_eq!(e, SuiEventsResponse::default());

    let s = SuccessResponse::new();
    assert!(!s.result);
    assert!(s.info.is_none());
    assert_eq!(s, SuccessResponse::default());
}

#[test]
fn package_shapes() {
    let o = SuiObjectInstance::new("0xabc".to_string());
    assert_eq!(o.object_id(), "0xabc");

    let p = PackageInstance::new(
        "0x1".to_string(),
        "demo".to_string(),
        "1700000000".to_string(),
    );
    assert_eq!(p.package_id, "0x1");
    assert_eq!(p.package_name, "demo");
    assert_eq!(p.package_timestamp, "1700000000");
    assert!(p.init_objects.is_none());

    let m = MoveConfig::new();
    assert!(m.path.is_none());
    assert!(m.latest_package.is_none());
    assert!(m.older_packages.is_empty());
    assert_eq!(m, MoveConfig::default());

    let c = PackagesConfigResponse::new();
    assert!(c.move_configs.is_none());
    assert!(c.display.is_none());
    assert!(c.debug.is_none());
    assert_eq!(c, PackagesConfigResponse::default());
}
