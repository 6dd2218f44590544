//! Building the notification: a fixed layout of content blocks derived
//! from one deployment report.

use crate::report::{CommitModel, DeploymentReport, ReportModel, Status};
use crate::text::{append_decimal, dec_of};
use vstd::prelude::*;
use vstd::string::*;

verus! {

/// One self-contained unit of the message layout: either a single
/// formatted text paragraph, or a row of side-by-side formatted
/// entries.
#[derive(Debug)]
pub enum Block {
    Text(String),
    Fields(Vec<String>),
}

/// Mathematical image of [`Block`].
#[verifier::ext_equal]
pub enum BlockModel {
    Text(Seq<char>),
    Fields(Seq<Seq<char>>),
}

impl View for Block {
    type V = BlockModel;

    open spec fn view(&self) -> BlockModel {
        match self {
            Block::Text(t) => BlockModel::Text(t@),
            Block::Fields(fs) => BlockModel::Fields(fs.deep_view()),
        }
    }
}

impl DeepView for Block {
    type V = BlockModel;

    open spec fn deep_view(&self) -> BlockModel {
        self.view()
    }
}

impl Block {
    /// Wraps one formatted text paragraph.
    pub fn text(text: String) -> (b: Block)
        ensures
            b@ == BlockModel::Text(text@),
    {
        Block::Text(text)
    }

    /// Wraps a row of side-by-side formatted entries.
    pub fn fields(fields: &[String]) -> (b: Block)
        ensures
            b@ == BlockModel::Fields(fields.deep_view()),
    {
        let mut v: Vec<String> = Vec::new();
        let mut i: usize = 0;
        while i < fields.len()
            invariant
                i <= fields@.len(),
                v@.len() == i,
                forall|j: int| 0 <= j < i ==> v@[j]@ == fields@[j]@,
            decreases fields@.len() - i,
        {
            let s: &String = &fields[i];
            let c = s.clone();
            proof {
                assert(c@ == fields@[i as int]@);
            }
            v.push(c);
            i = i + 1;
        }
        proof {
            assert(v.deep_view() =~= fields.deep_view());
        }
        Block::Fields(v)
    }
}

/// The message handed to the webhook: a display name, a target
/// channel, and the ordered content blocks.
#[derive(Debug)]
pub struct Notification {
    pub username: String,
    pub channel: String,
    pub blocks: Vec<Block>,
}

/// Mathematical image of [`Notification`].
#[verifier::ext_equal]
pub struct NotificationModel {
    pub username: Seq<char>,
    pub channel: Seq<char>,
    pub blocks: Seq<BlockModel>,
}

impl View for Notification {
    type V = NotificationModel;

    open spec fn view(&self) -> NotificationModel {
        NotificationModel {
            username: self.username@,
            channel: self.channel@,
            blocks: self.blocks.deep_view(),
        }
    }
}

/// The display name every notification is sent under.
pub open spec fn display_name() -> Seq<char> {
    "Bitbucket Pipelines"@
}

/// The header line: outcome token, service and environment.
pub open spec fn header_text(status: Status, service: Seq<char>, environment: Seq<char>) -> Seq<
    char,
> {
    match status {
        Status::Success => ":white_check_mark: Deployment of *"@ + service + "* to *"@
            + environment + "* successful."@,
        Status::Failure => ":no_entry: Deployment of *"@ + service + "* to *"@ + environment
            + "* failed."@,
    }
}

/// The labelled version entry of the info block.
pub open spec fn version_field(version: Seq<char>) -> Seq<char> {
    "*Version:*\n"@ + version
}

/// The labelled build entry: a link-style reference embedding the
/// build URL and the build number.
pub open spec fn build_field(build_url: Seq<char>, build_number: nat) -> Seq<char> {
    "*Build:*\n<"@ + build_url + "|"@ + dec_of(build_number) + ">"@
}

/// The labelled triggerer entry of the info block.
pub open spec fn triggered_field(user: Seq<char>) -> Seq<char> {
    "*Triggered by:*\n"@ + user
}

/// The fenced commit block text.
pub open spec fn commit_text(commit: Seq<char>, message: Seq<char>) -> Seq<char> {
    "```Commit: "@ + commit + "\n"@ + message + "```"@
}

/// The header block of a report.
pub open spec fn header_block(r: ReportModel) -> BlockModel {
    BlockModel::Text(header_text(r.status, r.service, r.environment))
}

/// The info block of a report: version, build, triggerer, in that
/// order.
pub open spec fn build_info_block(r: ReportModel) -> BlockModel {
    BlockModel::Fields(
        seq![
            version_field(r.version),
            build_field(r.build_url, r.build_number),
            triggered_field(r.user),
        ],
    )
}

/// The commit block for a supplied commit pair.
pub open spec fn commit_block(c: CommitModel) -> BlockModel {
    BlockModel::Text(commit_text(c.commit, c.message))
}

/// The full block sequence of a report: header first, info second,
/// commit block last and only when a commit pair was supplied.
pub open spec fn notification_blocks(r: ReportModel) -> Seq<BlockModel> {
    match r.commit {
        Option::Some(c) => seq![header_block(r), build_info_block(r), commit_block(c)],
        Option::None => seq![header_block(r), build_info_block(r)],
    }
}

/// The whole notification derived from a report.
pub open spec fn notification_model(r: ReportModel) -> NotificationModel {
    NotificationModel {
        username: display_name(),
        channel: r.channel,
        blocks: notification_blocks(r),
    }
}

/// Whether `p` is a prefix of `s`.
pub open spec fn starts_with(s: Seq<char>, p: Seq<char>) -> bool {
    p.len() <= s.len() && s.take(p.len() as int) == p
}

/// Law: the notification always has the header block first and the
/// info-fields block second, for every report.
pub proof fn lemma_block_order(r: ReportModel)
    ensures
        notification_model(r).blocks.len() >= 2,
        notification_model(r).blocks[0] == header_block(r),
        notification_model(r).blocks[1] == build_info_block(r),
{
}

/// Law: the commit block is present if and only if the report carries
/// the commit pair, and it is always the last block; without the pair
/// the notification has exactly the two fixed blocks.
pub proof fn lemma_commit_block_iff(r: ReportModel)
    ensures
        notification_model(r).blocks.len() == 3 <==> r.commit is Some,
        notification_model(r).blocks.len() == 2 <==> r.commit is None,
        r.commit matches Some(c) ==> notification_model(r).blocks.last() == commit_block(c),
{
}

/// Law: a Success header starts with the check-mark token and a
/// Failure header with the no-entry token.
pub proof fn lemma_header_token(r: ReportModel)
    ensures
        header_block(r) matches BlockModel::Text(t) && (r.status is Success ==> starts_with(
            t,
            ":white_check_mark:"@,
        )) && (r.status is Failure ==> starts_with(t, ":no_entry:"@)),
{
    reveal_strlit(":white_check_mark: Deployment of *");
    reveal_strlit(":white_check_mark:");
    reveal_strlit(":no_entry: Deployment of *");
    reveal_strlit(":no_entry:");
    let t = header_text(r.status, r.service, r.environment);
    match r.status {
        Status::Success => {
            assert(t.take(":white_check_mark:"@.len() as int) =~= ":white_check_mark:"@);
        },
        Status::Failure => {
            assert(t.take(":no_entry:"@.len() as int) =~= ":no_entry:"@);
        },
    }
}

/// Law: the info block always holds exactly three entries: the
/// version, the build reference embedding both the build URL and the
/// build number, and the triggerer, in that order.
pub proof fn lemma_info_fields(r: ReportModel)
    ensures
        build_info_block(r) matches BlockModel::Fields(fs) && fs.len() == 3 && fs[0]
            == version_field(r.version) && fs[1] == build_field(r.build_url, r.build_number)
            && fs[2] == triggered_field(r.user),
{
}

/// Builds the header block of the report.
pub fn get_header(report: &DeploymentReport) -> (b: Block)
    ensures
        b@ == header_block(report@),
{
    let mut s: String;
    match report.status {
        Status::Success => {
            s = String::from_str(":white_check_mark: Deployment of *");
            s.append(report.service.as_str());
            s.append("* to *");
            s.append(report.environment.as_str());
            s.append("* successful.");
        },
        Status::Failure => {
            s = String::from_str(":no_entry: Deployment of *");
            s.append(report.service.as_str());
            s.append("* to *");
            s.append(report.environment.as_str());
            s.append("* failed.");
        },
    }
    Block::text(s)
}

/// Builds the info block of the report.
pub fn get_build_info(report: &DeploymentReport) -> (b: Block)
    ensures
        b@ == build_info_block(report@),
{
    let mut version = String::from_str("*Version:*\n");
    version.append(report.version.as_str());

    let mut build = String::from_str("*Build:*\n<");
    build.append(report.build_url.as_str());
    build.append("|");
    append_decimal(&mut build, report.build_number);
    build.append(">");

    let mut triggered = String::from_str("*Triggered by:*\n");
    triggered.append(report.user.as_str());

    let mut fields: Vec<String> = Vec::new();
    fields.push(version);
    fields.push(build);
    fields.push(triggered);
    let b = Block::Fields(fields);
    proof {
        assert(b@ matches BlockModel::Fields(fs) && fs =~= seq![
            version_field(report@.version),
            build_field(report@.build_url, report@.build_number),
            triggered_field(report@.user),
        ]);
    }
    b
}

/// Builds the commit block, present exactly when the report carries a
/// commit pair.
pub fn get_git_info(report: &DeploymentReport) -> (r: Option<Block>)
    ensures
        r is Some <==> report.commit is Some,
        r matches Some(b) ==> (report@.commit matches Some(c) && b@ == commit_block(c)),
{
    match &report.commit {
        Option::Some(ci) => {
            let mut s = String::from_str("```Commit: ");
            s.append(ci.commit.as_str());
            s.append("\n");
            s.append(ci.message.as_str());
            s.append("```");
            Option::Some(Block::text(s))
        },
        Option::None => Option::None,
    }
}

/// Builds the whole notification for a report: fixed display name,
/// the report's channel, and the blocks in their fixed order.
pub fn build_notification(report: &DeploymentReport) -> (n: Notification)
    ensures
        n@ == notification_model(report@),
{
    let username = String::from_str("Bitbucket Pipelines");
    let channel = report.channel.clone();
    let mut blocks: Vec<Block> = Vec::new();
    blocks.push(get_header(report));
    blocks.push(get_build_info(report));
    match get_git_info(report) {
        Option::Some(b) => blocks.push(b),
        Option::None => (),
    }
    let n = Notification { username, channel, blocks };
    proof {
        assert(n@.blocks =~= notification_blocks(report@));
        assert(n@ =~= notification_model(report@));
    }
    n
}

} // verus!
