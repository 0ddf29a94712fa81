use kuberift::items::{context_color, truncate_name, Color, K8sItem, ResourceKind, StatusHealth};

#[test]
fn items_kind_as_str_all_variants() {
    assert_eq!(ResourceKind::Pod.as_str(), "pod");
    assert_eq!(ResourceKind::Service.as_str(), "svc");
    assert_eq!(ResourceKind::Deployment.as_str(), "deploy");
    assert_eq!(ResourceKind::StatefulSet.as_str(), "sts");
    assert_eq!(ResourceKind::DaemonSet.as_str(), "ds");
    assert_eq!(ResourceKind::ConfigMap.as_str(), "cm");
    assert_eq!(ResourceKind::Secret.as_str(), "secret");
    assert_eq!(ResourceKind::Ingress.as_str(), "ing");
    assert_eq!(ResourceKind::Node.as_str(), "node");
    assert_eq!(ResourceKind::Namespace.as_str(), "ns");
    assert_eq!(ResourceKind::PersistentVolumeClaim.as_str(), "pvc");
    assert_eq!(ResourceKind::Job.as_str(), "job");
    assert_eq!(ResourceKind::CronJob.as_str(), "cronjob");
}

#[test]
fn kind_display_matches_as_str() {
    assert_eq!(ResourceKind::Pod.as_str(), "pod");
    assert_eq!(ResourceKind::Deployment.as_str(), "deploy");
}

#[test]
fn status_health_critical_exact() {
    for s in &[
        "Failed",
        "Error",
        "OOMKilled",
        "NotReady",
        "Lost",
        "Evicted",
        "BackOff",
    ] {
        assert_eq!(
            StatusHealth::classify(s),
            StatusHealth::Critical,
            "status '{s}' should be Critical"
        );
    }
}

#[test]
fn status_health_critical_prefix() {
    for s in &[
        "CrashLoopBackOff",
        "ErrImagePull",
        "ImagePullBackOff",
        "Init:ErrImagePull",
        "Init:Error",
        "Init:ImagePullBackOff",
        "Failed(3)",
    ] {
        assert_eq!(
            StatusHealth::classify(s),
            StatusHealth::Critical,
            "status '{s}' should be Critical"
        );
    }
}

#[test]
fn status_health_warning() {
    for s in &[
        "Pending",
        "Terminating",
        "ContainerCreating",
        "Unknown",
        "Init:0/1",
        "Init:2/3",
    ] {
        assert_eq!(
            StatusHealth::classify(s),
            StatusHealth::Warning,
            "status '{s}' should be Warning"
        );
    }
}

#[test]
fn status_health_deleted_is_unknown() {
    assert_eq!(StatusHealth::classify("[DELETED]"), StatusHealth::Unknown);
}

#[test]
fn status_health_healthy_exact() {
    for s in &[
        "Running",
        "Active",
        "Bound",
        "Complete",
        "Succeeded",
        "Ready",
        "Scheduled",
        "ClusterIP",
        "NodePort",
        "LoadBalancer",
    ] {
        assert_eq!(
            StatusHealth::classify(s),
            StatusHealth::Healthy,
            "status '{s}' should be Healthy"
        );
    }
}

#[test]
fn status_health_ratio_equal_is_healthy() {
    assert_eq!(StatusHealth::classify("3/3"), StatusHealth::Healthy);
    assert_eq!(StatusHealth::classify("1/1"), StatusHealth::Healthy);
}

#[test]
fn status_health_ratio_unequal_is_warning() {
    assert_eq!(StatusHealth::classify("0/3"), StatusHealth::Warning);
    assert_eq!(StatusHealth::classify("2/3"), StatusHealth::Warning);
}

#[test]
fn status_health_active_prefix_is_healthy() {
    assert_eq!(StatusHealth::classify("Active(2)"), StatusHealth::Healthy);
}

#[test]
fn status_health_unknown_string_defaults_healthy() {
    assert_eq!(
        StatusHealth::classify("SomeUnknownStatus"),
        StatusHealth::Healthy
    );
}

#[test]
fn items_terminating_is_warning_not_critical() {
    assert_eq!(StatusHealth::classify("Terminating"), StatusHealth::Warning);
    assert_eq!(StatusHealth::Warning.priority(), 1);
    assert_eq!(StatusHealth::Warning.color(), Color::Yellow);
}

#[test]
fn items_status_color_running_is_green() {
    let item = K8sItem::new(ResourceKind::Pod, "ns", "p", "Running", "1d", "");
    assert_eq!(item.status_color(), Color::Green);
}

#[test]
fn items_status_color_crashloop_is_red() {
    let item = K8sItem::new(ResourceKind::Pod, "ns", "p", "CrashLoopBackOff", "1d", "");
    assert_eq!(item.status_color(), Color::Red);
}

#[test]
fn items_status_color_pending_is_yellow() {
    let item = K8sItem::new(ResourceKind::Pod, "ns", "p", "Pending", "1d", "");
    assert_eq!(item.status_color(), Color::Yellow);
}

#[test]
fn status_color_deleted_is_gray() {
    let item = K8sItem::new(ResourceKind::Pod, "ns", "p", "[DELETED]", "1d", "");
    assert_eq!(item.status_color(), Color::DarkGray);
}

#[test]
fn output_str_with_namespace() {
    let item = K8sItem::new(ResourceKind::Pod, "default", "nginx", "Running", "1d", "");
    assert_eq!(item.output_str(), "pod/default/nginx");
}

#[test]
fn output_str_no_namespace() {
    let item = K8sItem::new(ResourceKind::Node, "", "node-1", "Ready", "7d", "");
    assert_eq!(item.output_str(), "node/node-1");
}

#[test]
fn output_str_with_context() {
    let item = K8sItem::new(ResourceKind::Pod, "ns", "p", "Running", "1d", "prod");
    assert_eq!(item.output_str(), "prod:pod/ns/p");
}

#[test]
fn output_str_no_namespace_with_context() {
    let item = K8sItem::new(
        ResourceKind::Namespace,
        "",
        "default",
        "Active",
        "30d",
        "prod",
    );
    assert_eq!(item.output_str(), "prod:ns/default");
}

#[test]
fn truncate_short_name_unchanged() {
    assert_eq!(truncate_name("nginx", 31).as_str(), "nginx");
}

#[test]
fn truncate_exact_boundary_unchanged() {
    let name = "a".repeat(31);
    assert_eq!(truncate_name(&name, 31).as_str(), name.as_str());
}

#[test]
fn truncate_long_name_gets_ellipsis() {
    let name = "a".repeat(40);
    let result = truncate_name(&name, 31);
    assert!(result.contains('…'));
    assert!(result.len() <= 31 + '…'.len_utf8());
}

#[test]
fn truncate_handles_multibyte_utf8() {
    // "é" is 2 bytes; raw &name[..31] would panic if byte 31 lands mid-char
    let name = format!("{}é{}", "a".repeat(30), "suffix");
    // Should not panic and should produce valid UTF-8
    let result = truncate_name(&name, 31);
    assert!(std::str::from_utf8(result.as_bytes()).is_ok());
}

#[test]
fn items_context_color_is_deterministic() {
    assert_eq!(context_color("prod"), context_color("prod"));
}

#[test]
fn context_color_does_not_panic_on_empty() {
    let _ = context_color("");
}

