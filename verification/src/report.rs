//! The input record: everything the notifier is told about one
//! deployment, read once and never mutated.

use vstd::prelude::*;

verus! {

/// Outcome of a build or deployment run.
#[derive(Clone, Copy, Debug, PartialEq, Eq, Structural)]
pub enum Status {
    Success,
    Failure,
}

/// A commit hash together with its commit message. The two travel as a
/// pair so that "both or neither" holds by construction.
#[derive(Debug)]
pub struct CommitInfo {
    pub commit: String,
    pub message: String,
}

/// Mathematical image of [`CommitInfo`].
#[verifier::ext_equal]
pub struct CommitModel {
    pub commit: Seq<char>,
    pub message: Seq<char>,
}

impl View for CommitInfo {
    type V = CommitModel;

    open spec fn view(&self) -> CommitModel {
        CommitModel { commit: self.commit@, message: self.message@ }
    }
}

/// The deployment metadata a notification is built from.
#[derive(Debug)]
pub struct DeploymentReport {
    pub hook_url: String,
    pub channel: String,
    pub status: Status,
    pub service: String,
    pub environment: String,
    pub user: String,
    pub version: String,
    pub build_number: usize,
    pub build_url: String,
    pub commit: Option<CommitInfo>,
}

/// Mathematical image of [`DeploymentReport`].
#[verifier::ext_equal]
pub struct ReportModel {
    pub hook_url: Seq<char>,
    pub channel: Seq<char>,
    pub status: Status,
    pub service: Seq<char>,
    pub environment: Seq<char>,
    pub user: Seq<char>,
    pub version: Seq<char>,
    pub build_number: nat,
    pub build_url: Seq<char>,
    pub commit: Option<CommitModel>,
}

impl View for DeploymentReport {
    type V = ReportModel;

    open spec fn view(&self) -> ReportModel {
        ReportModel {
            hook_url: self.hook_url@,
            channel: self.channel@,
            status: self.status,
            service: self.service@,
            environment: self.environment@,
            user: self.user@,
            version: self.version@,
            build_number: self.build_number as nat,
            build_url: self.build_url@,
            commit: match self.commit {
                Option::Some(ci) => Option::Some(ci@),
                Option::None => Option::None,
            },
        }
    }
}

impl DeploymentReport {
    /// Builds the report from the raw flag values. The commit pair is
    /// kept only when both the hash and the message were supplied.
    pub fn new(
        hook_url: String,
        channel: String,
        status: Status,
        service: String,
        environment: String,
        user: String,
        version: String,
        build_number: usize,
        build_url: String,
        git_commit: Option<String>,
        git_message: Option<String>,
    ) -> (r: DeploymentReport)
        ensures
            r.hook_url@ == hook_url@,
            r.channel@ == channel@,
            r.status == status,
            r.service@ == service@,
            r.environment@ == environment@,
            r.user@ == user@,
            r.version@ == version@,
            r.build_number == build_number,
            r.build_url@ == build_url@,
            r.commit is Some <==> (git_commit is Some && git_message is Some),
            r.commit matches Some(ci) ==> (git_commit matches Some(c) && git_message matches Some(
                m,
            ) && ci.commit@ == c@ && ci.message@ == m@),
    {
        let commit = match (git_commit, git_message) {
            (Option::Some(c), Option::Some(m)) => Option::Some(
                CommitInfo { commit: c, message: m },
            ),
            _ => Option::None,
        };
        DeploymentReport {
            hook_url,
            channel,
            status,
            service,
            environment,
            user,
            version,
            build_number,
            build_url,
            commit,
        }
    }
}

} // verus!
