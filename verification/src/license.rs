//! The license plan of an open-source instance and the delivery of critical alerts.
use vstd::prelude::*;

use crate::error::ServiceError;
use crate::text::{concat4, owned, str_eq};

verus! {

/// The plans an instance can run under.
#[derive(PartialEq, Eq, Structural, Clone, Copy, Debug)]
pub enum LicensePlan {
    Community,
    Pro,
    Enterprise,
}

/// The plan of this build: always the community plan.
pub fn get_license_plan() -> (r: LicensePlan)
    ensures
        r == LicensePlan::Community,
{
    LicensePlan::Community
}

/// Whether offline license metadata is of the offline kind.
pub fn is_offline_kind(kind: &str) -> (r: bool)
    ensures
        r == (kind@ == "offline"@),
{
    str_eq(kind, "offline")
}

/// A Microsoft Teams channel.
pub struct TeamsChannel {
    pub team_id: String,
    pub team_name: String,
    pub channel_id: String,
    pub channel_name: String,
}

/// Where critical alerts go.
pub enum CriticalErrorChannel {
    Email { email: String },
    Slack { slack_channel: String },
    Teams { teams_channel: TeamsChannel },
}

/// Whether an alert reports an error or the recovery from one.
#[derive(PartialEq, Eq, Structural, Clone, Copy, Debug)]
pub enum CriticalAlertKind {
    CriticalError,
    RecoveredCriticalError,
}

/// Why a license key is renewed.
#[derive(PartialEq, Eq, Structural, Clone, Copy, Debug)]
pub enum RenewReason {
    Manual,
    Schedule,
    OnStart,
}

/// The subject line of an alert of the given kind.
pub open spec fn alert_subject(kind: CriticalAlertKind) -> Seq<char> {
    match kind {
        CriticalAlertKind::CriticalError => "Critical error on Windmill instance"@,
        CriticalAlertKind::RecoveredCriticalError =>
            "Recovered from critical error on Windmill instance"@,
    }
}

/// The subject line of an alert.
pub fn critical_alert_subject(kind: CriticalAlertKind) -> (r: &'static str)
    ensures
        r@ == alert_subject(kind),
{
    match kind {
        CriticalAlertKind::CriticalError => "Critical error on Windmill instance",
        CriticalAlertKind::RecoveredCriticalError =>
            "Recovered from critical error on Windmill instance",
    }
}

/// The channels an alert goes to: those given with it, else the instance's.
pub fn alert_channels<'a>(
    given: &'a Option<Vec<CriticalErrorChannel>>,
    global: &'a Vec<CriticalErrorChannel>,
) -> (r: &'a [CriticalErrorChannel])
    ensures
        r@ == match given {
            Some(v) => v@,
            None => global@,
        },
{
    match given {
        Some(v) => v.as_slice(),
        None => global.as_slice(),
    }
}

/// What to do for one channel of an alert.
pub enum AlertAction {
    /// Mail the alert, in plain text, to this address.
    SendEmail { to: String },
    /// Mail is not configured: warn that the alert to this address is not sent.
    SmtpMissing { to: String },
    /// Post the alert to this Slack channel.
    PostSlack { channel: String },
    /// Teams is not supported in this build: warn.
    TeamsUnsupported,
}

/// The action for one channel, given whether mail is configured.
pub open spec fn action_for(c: CriticalErrorChannel, smtp_configured: bool, a: AlertAction) -> bool {
    match c {
        CriticalErrorChannel::Email { email } => if smtp_configured {
            a matches AlertAction::SendEmail { to } && to@ == email@
        } else {
            a matches AlertAction::SmtpMissing { to } && to@ == email@
        },
        CriticalErrorChannel::Slack { slack_channel } => a matches AlertAction::PostSlack {
            channel,
        } && channel@ == slack_channel@,
        CriticalErrorChannel::Teams { .. } => a is TeamsUnsupported,
    }
}

/// A Slack channel is always posted to, whether mail is configured or not; a Teams
/// channel is always only warned about; only an Email channel depends on mail being
/// configured: mailed to its address when it is, warned about when it is not.
pub proof fn alert_action_laws(c: CriticalErrorChannel, smtp_configured: bool, a: AlertAction)
    requires
        action_for(c, smtp_configured, a),
    ensures
        c matches CriticalErrorChannel::Slack { slack_channel } ==> (a matches AlertAction::PostSlack {
            channel,
        } && channel@ == slack_channel@),
        c is Teams ==> a is TeamsUnsupported,
        c matches CriticalErrorChannel::Email { email } ==> (smtp_configured ==> (
        a matches AlertAction::SendEmail { to } && to@ == email@)),
        c matches CriticalErrorChannel::Email { email } ==> (!smtp_configured ==> (
        a matches AlertAction::SmtpMissing { to } && to@ == email@)),
        !(c is Email) ==> action_for(c, !smtp_configured, a),
{
}

/// One action per channel, in the channels' order.
pub fn critical_alert_actions(channels: &[CriticalErrorChannel], smtp_configured: bool) -> (r: Vec<
    AlertAction,
>)
    ensures
        r@.len() == channels@.len(),
        forall|i: int|
            0 <= i < r@.len() ==> action_for(channels@[i], smtp_configured, #[trigger] r@[i]),
{
    let mut out: Vec<AlertAction> = Vec::new();
    let mut i: usize = 0;
    while i < channels.len()
        invariant
            i <= channels@.len(),
            out@.len() == i,
            forall|k: int|
                0 <= k < i ==> action_for(channels@[k], smtp_configured, #[trigger] out@[k]),
        decreases channels@.len() - i,
    {
        let a = match &channels[i] {
            CriticalErrorChannel::Email { email } => if smtp_configured {
                AlertAction::SendEmail { to: owned(email.as_str()) }
            } else {
                AlertAction::SmtpMissing { to: owned(email.as_str()) }
            },
            CriticalErrorChannel::Slack { slack_channel } => AlertAction::PostSlack {
                channel: owned(slack_channel.as_str()),
            },
            CriticalErrorChannel::Teams { .. } => AlertAction::TeamsUnsupported,
        };
        out.push(a);
        i += 1;
    }
    out
}

/// The text of an alert posted to Slack: the subject in bold, then the message.
pub fn slack_alert_text(subject: &str, message: &str) -> (r: String)
    ensures
        r@ == "*"@ + subject@ + "*\n"@ + message@,
{
    concat4("*", subject, "*\n", message)
}

/// Slack's answer: accepted only when its `ok` field is `true`; otherwise an error
/// naming the HTTP status and the answer's body.
pub fn slack_reply_check(ok: Option<bool>, status: &str, body: &str) -> (r: Result<
    (),
    ServiceError,
>)
    ensures
        ok == Some(true) ==> r is Ok,
        ok != Some(true) ==> (r matches Err(ServiceError::InternalErr(m)) && m@
            == "Slack API error (status "@ + status@ + "): "@ + body@),
{
    match ok {
        Some(true) => Ok(()),
        _ => Err(ServiceError::InternalErr(concat4("Slack API error (status ", status, "): ", body))),
    }
}

} // verus!
