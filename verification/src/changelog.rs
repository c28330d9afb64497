use vstd::prelude::*;

verus! {

/// What a commit record says, as plain text.
pub struct CommitView {
    pub commit_hash: Seq<char>,
    pub title: Seq<char>,
    pub author_name: Seq<char>,
}

/// The newest commit of a repository: shown, never changed.
#[derive(Debug)]
pub struct CurrentCommit {
    pub commit_hash: String,
    pub title: String,
    pub author_name: String,
}

impl View for CurrentCommit {
    type V = CommitView;

    open spec fn view(&self) -> CommitView {
        CommitView {
            commit_hash: self.commit_hash@,
            title: self.title@,
            author_name: self.author_name@,
        }
    }
}

/// What a merge request record says, as plain text.
pub struct MergeRequestView {
    pub ticket_number: Seq<char>,
    pub title: Seq<char>,
    pub github: Seq<char>,
    pub flags: Seq<char>,
}

/// One change that waits for the next release.
#[derive(Debug)]
pub struct MergeRequest {
    pub ticket_number: String,
    pub title: String,
    pub github: String,
    pub flags: String,
}

impl View for MergeRequest {
    type V = MergeRequestView;

    open spec fn view(&self) -> MergeRequestView {
        MergeRequestView {
            ticket_number: self.ticket_number@,
            title: self.title@,
            github: self.github@,
            flags: self.flags@,
        }
    }
}

/// What a snapshot says: the next version, the time it was taken, the newest
/// commit where the helper reported one, and the pending changes in order.
pub struct ChangelogView {
    pub next_version_number: nat,
    pub current_time: Seq<char>,
    pub commit: Option<CommitView>,
    pub merge_requests: Seq<MergeRequestView>,
}

/// The pending release of one repository at one point in time.
#[derive(Debug)]
pub struct Changelog {
    pub next_version_number: u32,
    pub commit: Option<CurrentCommit>,
    pub current_time: String,
    pub merge_requests: Vec<MergeRequest>,
}

impl View for Changelog {
    type V = ChangelogView;

    open spec fn view(&self) -> ChangelogView {
        ChangelogView {
            next_version_number: self.next_version_number as nat,
            current_time: self.current_time@,
            commit: match self.commit {
                Some(commit) => Some(commit@),
                None => None,
            },
            merge_requests: self.merge_requests@.map_values(|m: MergeRequest| m@),
        }
    }
}

} // verus!
