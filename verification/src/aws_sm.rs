//! Secrets kept in AWS Secrets Manager: the client's settings, the names of the
//! secrets, what each answer of the service means, and the migration reports.
use vstd::prelude::*;

use crate::error::ServiceError;
use crate::text::{concat2, concat3, concat4, owned, starts_with};
use crate::url_parts::opt_seq;

verus! {

#[verifier::external_type_specification]
#[verifier::external_body]
pub struct ExSecretsManagerClient(aws_sdk_secretsmanager::Client);

/// The settings of the AWS Secrets Manager backend.
#[derive(Clone)]
pub struct AwsSecretsManagerSettings {
    pub region: String,
    pub access_key_id: Option<String>,
    pub secret_access_key: Option<String>,
    pub endpoint_url: Option<String>,
    pub prefix: Option<String>,
}

/// How the client is set up.
pub struct AwsClientPlan {
    pub region: String,
    /// Static credentials: the access key id and the secret access key.
    pub credentials: Option<(String, String)>,
    pub endpoint_url: Option<String>,
}

/// The client's setup: static credentials only when both keys are given and not
/// empty, a custom endpoint only when one is given and not empty.
pub fn aws_client_plan(settings: &AwsSecretsManagerSettings) -> (r: AwsClientPlan)
    ensures
        r.region@ == settings.region@,
        match (opt_seq(settings.access_key_id), opt_seq(settings.secret_access_key)) {
            (Some(a), Some(s)) => if a.len() > 0 && s.len() > 0 {
                r.credentials matches Some((ra, rs)) && ra@ == a && rs@ == s
            } else {
                r.credentials is None
            },
            _ => r.credentials is None,
        },
        match opt_seq(settings.endpoint_url) {
            Some(e) => if e.len() > 0 {
                opt_seq(r.endpoint_url) == Some(e)
            } else {
                r.endpoint_url is None
            },
            None => r.endpoint_url is None,
        },
{
    let credentials = match (&settings.access_key_id, &settings.secret_access_key) {
        (Some(a), Some(s)) => if a.as_str().unicode_len() > 0 && s.as_str().unicode_len() > 0 {
            Some((owned(a.as_str()), owned(s.as_str())))
        } else {
            None
        },
        _ => None,
    };
    let endpoint_url = match &settings.endpoint_url {
        Some(e) => if e.as_str().unicode_len() > 0 {
            Some(owned(e.as_str()))
        } else {
            None
        },
        None => None,
    };
    AwsClientPlan { region: owned(settings.region.as_str()), credentials, endpoint_url }
}

/// The name of a workspace's secret: the prefix, the workspace, `/`, the path.
pub open spec fn secret_name_of(prefix: Seq<char>, workspace_id: Seq<char>, path: Seq<char>) -> Seq<
    char,
> {
    prefix + workspace_id + "/"@ + path
}

/// Two secrets of workspaces whose ids hold no `/` get the same name only when they
/// are the same secret.
pub proof fn secret_names_are_distinct(
    prefix: Seq<char>,
    w1: Seq<char>,
    p1: Seq<char>,
    w2: Seq<char>,
    p2: Seq<char>,
)
    requires
        !w1.contains('/'),
        !w2.contains('/'),
        secret_name_of(prefix, w1, p1) == secret_name_of(prefix, w2, p2),
    ensures
        w1 == w2,
        p1 == p2,
{
    reveal_strlit("/");
    let n1 = secret_name_of(prefix, w1, p1);
    let n2 = secret_name_of(prefix, w2, p2);
    let k: int = prefix.len() as int;
    if w1.len() < w2.len() {
        assert(n1[k + w1.len() as int] == '/');
        assert(n2[k + w1.len() as int] == w2[w1.len() as int]);
        assert(w2.contains(w2[w1.len() as int]));
    } else if w2.len() < w1.len() {
        assert(n2[k + w2.len() as int] == '/');
        assert(n1[k + w2.len() as int] == w1[w2.len() as int]);
        assert(w1.contains(w1[w2.len() as int]));
    } else {
        assert forall|i: int| 0 <= i < w1.len() implies w1[i] == w2[i] by {
            assert(n1[k + i] == w1[i]);
            assert(n2[k + i] == w2[i]);
        }
        assert(w1 =~= w2);
        assert(n1.len() == k + w1.len() + 1 + p1.len());
        assert(n2.len() == k + w2.len() + 1 + p2.len());
        assert(p1.len() == p2.len());
        assert forall|i: int| 0 <= i < p1.len() implies p1[i] == p2[i] by {
            assert(n1[k + w1.len() as int + 1 + i] == p1[i]);
            assert(n2[k + w1.len() as int + 1 + i] == p2[i]);
        }
        assert(p1 =~= p2);
    }
}

/// A secrets backend on AWS Secrets Manager.
pub struct AwsSecretsManagerBackend {
    client: aws_sdk_secretsmanager::Client,
    prefix: String,
}

impl AwsSecretsManagerBackend {
    /// The prefix put before every secret's name.
    pub closed spec fn prefix_view(&self) -> Seq<char> {
        self.prefix@
    }

    /// The client the backend was made with.
    pub closed spec fn client_view(&self) -> aws_sdk_secretsmanager::Client {
        self.client
    }

    /// The backend over a client made from `settings`; no prefix counts as empty.
    pub fn with_client(client: aws_sdk_secretsmanager::Client, settings: AwsSecretsManagerSettings) -> (r:
        Self)
        ensures
            r.client_view() == client,
            r.prefix_view() == match opt_seq(settings.prefix) {
                Some(p) => p,
                None => Seq::<char>::empty(),
            },
    {
        let prefix = match settings.prefix {
            Some(p) => p,
            None => String::new(),
        };
        AwsSecretsManagerBackend { client, prefix }
    }

    /// The client that the backend calls.
    pub fn client(&self) -> (r: &aws_sdk_secretsmanager::Client)
        ensures
            *r == self.client_view(),
    {
        &self.client
    }

    /// The name under which a workspace's secret is stored.
    pub fn secret_name(&self, workspace_id: &str, path: &str) -> (r: String)
        ensures
            r@ == secret_name_of(self.prefix_view(), workspace_id@, path@),
    {
        concat4(self.prefix.as_str(), workspace_id, "/", path)
    }

    /// The name of this backend.
    pub fn backend_name(&self) -> (r: &'static str)
        ensures
            r@ == "aws_secrets_manager"@,
    {
        "aws_secrets_manager"
    }
}

/// What the service answered to a read.
pub enum GetSecretReply {
    /// The secret, with its string value if it has one.
    Found(Option<String>),
    NotFound,
    /// Any other failure, by its message.
    Failed(String),
}

/// The value read, or the error that the answer means.
pub fn get_secret_result(name: &str, reply: GetSecretReply) -> (r: Result<String, ServiceError>)
    ensures
        match reply {
            GetSecretReply::Found(Some(v)) => r matches Ok(x) && x == v,
            GetSecretReply::Found(None) => r matches Err(ServiceError::InternalErr(m)) && m@
                == "AWS secret "@ + name@ + " has no string value"@,
            GetSecretReply::NotFound => r matches Err(ServiceError::NotFound(m)) && m@ == "secret "@
                + name@ + " not found"@,
            GetSecretReply::Failed(e) => r matches Err(ServiceError::InternalErr(m)) && m@
                == "AWS Secrets Manager get failed for "@ + name@ + ": "@ + e@,
        },
{
    match reply {
        GetSecretReply::Found(Some(v)) => Ok(v),
        GetSecretReply::Found(None) => Err(
            ServiceError::InternalErr(concat3("AWS secret ", name, " has no string value")),
        ),
        GetSecretReply::NotFound => Err(ServiceError::NotFound(concat3("secret ", name, " not found"))),
        GetSecretReply::Failed(e) => Err(
            ServiceError::InternalErr(
                concat4("AWS Secrets Manager get failed for ", name, ": ", e.as_str()),
            ),
        ),
    }
}

/// What the service answered to the creation of a secret.
pub enum CreateSecretReply {
    Created,
    AlreadyExists,
    Failed(String),
}

/// The step after a creation: done, with its result, or put a new value to the
/// secret that already exists.
pub enum SetSecretStep {
    Done(Result<(), ServiceError>),
    PutValue,
}

/// The step after a creation: a secret that exists already gets a new value.
pub fn set_secret_after_create(name: &str, reply: CreateSecretReply) -> (r: SetSecretStep)
    ensures
        match reply {
            CreateSecretReply::Created => r matches SetSecretStep::Done(Ok(())),
            CreateSecretReply::AlreadyExists => r is PutValue,
            CreateSecretReply::Failed(e) => r matches SetSecretStep::Done(
                Err(ServiceError::InternalErr(m)),
            ) && m@ == "AWS Secrets Manager create failed for "@ + name@ + ": "@ + e@,
        },
{
    match reply {
        CreateSecretReply::Created => SetSecretStep::Done(Ok(())),
        CreateSecretReply::AlreadyExists => SetSecretStep::PutValue,
        CreateSecretReply::Failed(e) => SetSecretStep::Done(
            Err(
                ServiceError::InternalErr(
                    concat4("AWS Secrets Manager create failed for ", name, ": ", e.as_str()),
                ),
            ),
        ),
    }
}

/// The result of putting a new value to an existing secret.
pub fn set_secret_after_put(name: &str, reply: Result<(), String>) -> (r: Result<(), ServiceError>)
    ensures
        match reply {
            Ok(()) => r is Ok,
            Err(e) => r matches Err(ServiceError::InternalErr(m)) && m@
                == "AWS Secrets Manager update failed for "@ + name@ + ": "@ + e@,
        },
{
    match reply {
        Ok(()) => Ok(()),
        Err(e) => Err(
            ServiceError::InternalErr(
                concat4("AWS Secrets Manager update failed for ", name, ": ", e.as_str()),
            ),
        ),
    }
}

/// What the service answered to a deletion.
pub enum DeleteSecretReply {
    Deleted,
    NotFound,
    Failed(String),
}

/// The result of a deletion: a secret that was not there counts as deleted.
pub fn delete_secret_result(name: &str, reply: DeleteSecretReply) -> (r: Result<(), ServiceError>)
    ensures
        match reply {
            DeleteSecretReply::Deleted => r is Ok,
            DeleteSecretReply::NotFound => r is Ok,
            DeleteSecretReply::Failed(e) => r matches Err(ServiceError::InternalErr(m)) && m@
                == "AWS Secrets Manager delete failed for "@ + name@ + ": "@ + e@,
        },
{
    match reply {
        DeleteSecretReply::Deleted => Ok(()),
        DeleteSecretReply::NotFound => Ok(()),
        DeleteSecretReply::Failed(e) => Err(
            ServiceError::InternalErr(
                concat4("AWS Secrets Manager delete failed for ", name, ": ", e.as_str()),
            ),
        ),
    }
}

/// The result of the connection test (listing at most one secret).
pub fn connection_test_result(reply: Result<(), String>) -> (r: Result<(), ServiceError>)
    ensures
        match reply {
            Ok(()) => r is Ok,
            Err(e) => r matches Err(ServiceError::InternalErr(m)) && m@
                == "AWS Secrets Manager connection test failed: "@ + e@,
        },
{
    match reply {
        Ok(()) => Ok(()),
        Err(e) => Err(
            ServiceError::InternalErr(
                concat2("AWS Secrets Manager connection test failed: ", e.as_str()),
            ),
        ),
    }
}

/// Whether a stored value points into an external secret store rather than holding
/// the secret.
pub open spec fn external_marker(v: Seq<char>) -> bool {
    "$vault:"@.is_prefix_of(v) || "$azure_kv:"@.is_prefix_of(v) || "$aws_sm:"@.is_prefix_of(v)
}

/// Whether a stored value is a marker of an external secret store.
pub fn is_external_marker(value: &str) -> (r: bool)
    ensures
        r == external_marker(value@),
{
    starts_with(value, "$vault:") || starts_with(value, "$azure_kv:") || starts_with(
        value,
        "$aws_sm:",
    )
}

/// The value stored in place of a secret moved to AWS: `$aws_sm:` and its path.
pub fn aws_sm_marker(path: &str) -> (r: String)
    ensures
        r@ == "$aws_sm:"@ + path@,
{
    concat2("$aws_sm:", path)
}

/// A secret that could not be moved.
pub struct SecretMigrationFailure {
    pub workspace_id: String,
    pub path: String,
    pub error: String,
}

/// The result of moving the secrets from one store to the other.
pub struct SecretMigrationReport {
    pub total_secrets: usize,
    pub migrated_count: usize,
    pub failed_count: usize,
    pub failures: Vec<SecretMigrationFailure>,
}

/// What happened to one secret in a migration.
pub enum MigrationOutcome {
    /// Left as it is: it already points into an external store.
    Skipped,
    Migrated,
    /// Not moved, with the error's message.
    Failed(String),
}

/// The number of secrets moved.
pub open spec fn count_migrated(os: Seq<MigrationOutcome>) -> nat
    decreases os.len(),
{
    if os.len() == 0 {
        0
    } else {
        count_migrated(os.drop_last()) + if os.last() is Migrated {
            1nat
        } else {
            0nat
        }
    }
}

/// The number of secrets that could not be moved.
pub open spec fn count_failed(os: Seq<MigrationOutcome>) -> nat
    decreases os.len(),
{
    if os.len() == 0 {
        0
    } else {
        count_failed(os.drop_last()) + if os.last() is Failed {
            1nat
        } else {
            0nat
        }
    }
}

/// The workspace, path and message of each secret that could not be moved, in order.
pub open spec fn failures_of(rows: Seq<(String, String)>, os: Seq<MigrationOutcome>) -> Seq<
    (Seq<char>, Seq<char>, Seq<char>),
>
    decreases os.len(),
{
    if os.len() == 0 || rows.len() == 0 {
        Seq::empty()
    } else {
        let r = failures_of(rows.drop_last(), os.drop_last());
        match os.last() {
            MigrationOutcome::Failed(m) => r.push((rows.last().0@, rows.last().1@, m@)),
            _ => r,
        }
    }
}

/// The views of the failures of a report.
pub open spec fn failure_views(fs: Seq<SecretMigrationFailure>) -> Seq<
    (Seq<char>, Seq<char>, Seq<char>),
> {
    fs.map_values(|f: SecretMigrationFailure| (f.workspace_id@, f.path@, f.error@))
}

/// A report is consistent: one failure listed per failed secret, and no more secrets
/// moved or failed than there were.
pub open spec fn report_consistent(r: SecretMigrationReport) -> bool {
    &&& r.failures@.len() == r.failed_count
    &&& r.migrated_count + r.failed_count <= r.total_secrets
}

proof fn lemma_counts(rows: Seq<(String, String)>, os: Seq<MigrationOutcome>)
    requires
        rows.len() == os.len(),
    ensures
        count_migrated(os) + count_failed(os) <= os.len(),
        failures_of(rows, os).len() == count_failed(os),
    decreases os.len(),
{
    if os.len() > 0 {
        lemma_counts(rows.drop_last(), os.drop_last());
    }
}

/// The report of a migration over `rows` (workspace and path of each secret), given
/// what happened to each.
pub fn migration_report(rows: &Vec<(String, String)>, outcomes: &Vec<MigrationOutcome>) -> (r:
    SecretMigrationReport)
    requires
        rows@.len() == outcomes@.len(),
    ensures
        r.total_secrets == rows@.len(),
        r.migrated_count == count_migrated(outcomes@),
        r.failed_count == count_failed(outcomes@),
        failure_views(r.failures@) == failures_of(rows@, outcomes@),
{
    let mut report = SecretMigrationReport {
        total_secrets: rows.len(),
        migrated_count: 0,
        failed_count: 0,
        failures: Vec::new(),
    };
    let mut i: usize = 0;
    while i < outcomes.len()
        invariant
            rows@.len() == outcomes@.len(),
            i <= outcomes@.len(),
            report.total_secrets == rows@.len(),
            report.migrated_count == count_migrated(outcomes@.take(i as int)),
            report.failed_count == count_failed(outcomes@.take(i as int)),
            failure_views(report.failures@) == failures_of(
                rows@.take(i as int),
                outcomes@.take(i as int),
            ),
        decreases outcomes@.len() - i,
    {
        proof {
            assert(outcomes@.take(i + 1).drop_last() =~= outcomes@.take(i as int));
            assert(rows@.take(i + 1).drop_last() =~= rows@.take(i as int));
            lemma_counts(rows@.take(i as int), outcomes@.take(i as int));
        }
        match &outcomes[i] {
            MigrationOutcome::Skipped => {},
            MigrationOutcome::Migrated => {
                report.migrated_count = report.migrated_count + 1;
            },
            MigrationOutcome::Failed(e) => {
                report.failed_count = report.failed_count + 1;
                report.failures.push(
                    SecretMigrationFailure {
                        workspace_id: owned(rows[i].0.as_str()),
                        path: owned(rows[i].1.as_str()),
                        error: owned(e.as_str()),
                    },
                );
                proof {
                    assert(failure_views(report.failures@) =~= failures_of(
                        rows@.take(i + 1),
                        outcomes@.take(i + 1),
                    ));
                }
            },
        }
        i += 1;
    }
    proof {
        assert(outcomes@.take(outcomes@.len() as int) =~= outcomes@);
        assert(rows@.take(rows@.len() as int) =~= rows@);
    }
    report
}

/// Every report that `migration_report` makes is consistent: it lists one failure per
/// failed secret, and counts no more moved and failed secrets than there were.
pub proof fn migration_report_is_consistent(
    rows: Seq<(String, String)>,
    outcomes: Seq<MigrationOutcome>,
    r: SecretMigrationReport,
)
    requires
        rows.len() == outcomes.len(),
        r.total_secrets == rows.len(),
        r.migrated_count == count_migrated(outcomes),
        r.failed_count == count_failed(outcomes),
        failure_views(r.failures@) == failures_of(rows, outcomes),
    ensures
        report_consistent(r),
{
    lemma_counts(rows, outcomes);
    assert(failure_views(r.failures@).len() == r.failures@.len());
}

/// A secret moved to AWS leaves behind a value that a later migration to AWS skips,
/// and that a migration back from AWS selects (its value starts with `$aws_sm:`).
pub proof fn moved_secret_is_marked(path: Seq<char>)
    ensures
        external_marker("$aws_sm:"@ + path),
        "$aws_sm:"@.is_prefix_of("$aws_sm:"@ + path),
{
    assert(("$aws_sm:"@ + path).take("$aws_sm:"@.len() as int) =~= "$aws_sm:"@);
}

} // verus!
