use windmill_oss::email::{email_delivery, EmailBody, Smtp};
use windmill_oss::error::ServiceError;
use windmill_oss::license::{
    alert_channels, critical_alert_actions, critical_alert_subject, get_license_plan,
    is_offline_kind, slack_alert_text, slack_reply_check, AlertAction, CriticalAlertKind,
    CriticalErrorChannel, LicensePlan, RenewReason, TeamsChannel,
};

fn smtp() -> Smtp {
    Smtp {
        host: "smtp.example.com".to_string(),
        username: Some("user".to_string()),
        password: None,
        port: 587,
        from: "noreply@example.com".to_string(),
        tls_implicit: None,
        disable_tls: Some(true),
    }
}

#[test]
fn plan_is_community() {
    assert!(get_license_plan() == LicensePlan::Community);
    assert!(get_license_plan() != LicensePlan::Enterprise);
    let _ = RenewReason::OnStart;
}

#[test]
fn offline_kind() {
    assert!(is_offline_kind("offline"));
    assert!(!is_offline_kind("online"));
    assert!(!is_offline_kind("Offline"));
}

#[test]
fn alert_subjects() {
    assert_eq!(critical_alert_subject(CriticalAlertKind::CriticalError), "Critical error on Windmill instance");
    assert_eq!(
        critical_alert_subject(CriticalAlertKind::RecoveredCriticalError),
        "Recovered from critical error on Windmill instance"
    );
}

fn channels() -> Vec<CriticalErrorChannel> {
    vec![
        CriticalErrorChannel::Email { email: "ops@x.io".to_string() },
        CriticalErrorChannel::Slack { slack_channel: "#alerts".to_string() },
        CriticalErrorChannel::Teams {
            teams_channel: TeamsChannel {
                team_id: "t".to_string(),
                team_name: "T".to_string(),
                channel_id: "c".to_string(),
                channel_name: "C".to_string(),
            },
        },
    ]
}

#[test]
fn alert_actions_per_channel() {
    let cs = channels();
    let acts = critical_alert_actions(&cs, true);
    assert_eq!(acts.len(), 3);
    assert!(matches!(&acts[0], AlertAction::SendEmail { to } if to == "ops@x.io"));
    assert!(matches!(&acts[1], AlertAction::PostSlack { channel } if channel == "#alerts"));
    assert!(matches!(&acts[2], AlertAction::TeamsUnsupported));
    let acts = critical_alert_actions(&cs, false);
    assert!(matches!(&acts[0], AlertAction::SmtpMissing { to } if to == "ops@x.io"));
}

#[test]
fn alert_channel_choice() {
    let global = channels();
    let given = Some(vec![CriticalErrorChannel::Slack { slack_channel: "#x".to_string() }]);
    assert_eq!(alert_channels(&given, &global).len(), 1);
    assert_eq!(alert_channels(&None, &global).len(), 3);
}

#[test]
fn slack_text_and_reply() {
    assert_eq!(slack_alert_text("Subj", "body"), "*Subj*\nbody");
    assert!(slack_reply_check(Some(true), "200 OK", "{}").is_ok());
    assert!(matches!(slack_reply_check(Some(false), "200 OK", "{\"ok\":false}"),
        Err(ServiceError::InternalErr(m)) if m == "Slack API error (status 200 OK): {\"ok\":false}"));
    assert!(slack_reply_check(None, "500", "").is_err());
}

#[test]
fn email_needs_recipients() {
    assert!(email_delivery("s", EmailBody::Text("b".to_string()), vec![], smtp()).is_none());
}

#[test]
fn email_delivery_settings() {
    let d = email_delivery("Hi", EmailBody::Html("<b>x</b>".to_string()), vec!["a@b.c".to_string()], smtp())
        .unwrap();
    assert_eq!(d.from, "noreply@example.com");
    assert_eq!(d.to, vec!["a@b.c".to_string()]);
    assert_eq!(d.subject, "Hi");
    assert!(matches!(d.body, EmailBody::Html(ref h) if h == "<b>x</b>"));
    assert_eq!(d.host, "smtp.example.com");
    assert_eq!(d.port, 587);
    assert!(!d.implicit_tls);
    assert!(d.plain);
    assert_eq!(d.credentials, Some(("user".to_string(), String::new())));
    let mut s = smtp();
    s.username = None;
    s.tls_implicit = Some(true);
    s.disable_tls = None;
    let d = email_delivery("Hi", EmailBody::Text("x".to_string()), vec!["a@b.c".to_string()], s).unwrap();
    assert!(d.implicit_tls);
    assert!(!d.plain);
    assert!(d.credentials.is_none());
}
