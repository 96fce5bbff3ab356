//! What comparing the cloud with the device does, from the first step to the last.

use vstd::prelude::*;

use crate::conversation::{continues, is_conversation, lemma_stop_is_last, Stepwise};
use crate::flows::detail::RefreshDetailFlow;
use crate::protocol::{KeychainKey, Operation, Outcome, Progress, Reply, Request};
use crate::state::{CloudBackupDetail, CloudBackupDetailResult};

verus! {

impl Stepwise for RefreshDetailFlow {
    type Value = Option<CloudBackupDetailResult>;

    open spec fn follows(
        self,
        reply: Reply,
        progress: Progress<Self, Option<CloudBackupDetailResult>>,
    ) -> bool {
        self.next(reply, progress)
    }
}

/// Whether the listing at the step `at` is used: confirmed uploads that it shows are taken out of
/// the queue, and the detail that is shown is made from that listing.
pub open spec fn compares_listing(
    listed: Vec<String>,
    detail: CloudBackupDetail,
    steps: Seq<Progress<RefreshDetailFlow, Option<CloudBackupDetailResult>>>,
    replies: Seq<Reply>,
    at: int,
) -> bool {
    &&& replies.len() == at + 3
    &&& replies[at] == Reply::Listed(Ok(listed))
    &&& steps[at + 1] matches Progress::Ask {
        request: Request::Call(Operation::CleanupListed { listed: shown }),
        ..
    } && shown@ == listed@
    &&& steps[at + 2].requests(Request::BuildDetail { record_ids: listed })
    &&& replies[at + 2] == Reply::Detail(detail)
}

/// A detail that is refreshed is made from what the cloud lists in the keychain's namespace. Where
/// the namespace is gone, all wallets are uploaded again first, and it is listed once more.
pub proof fn law_detail_is_made_from_the_listing(
    steps: Seq<Progress<RefreshDetailFlow, Option<CloudBackupDetailResult>>>,
    replies: Seq<Reply>,
    detail: CloudBackupDetail,
)
    requires
        RefreshDetailFlow::began(steps[0]),
        is_conversation(steps, replies),
        steps.last() matches Progress::Done {
            value: Some(CloudBackupDetailResult::Success(shown)),
            ..
        } && shown == detail,
    ensures
        steps[0].requests(Request::ReadStatus),
        replies[0] matches Reply::Status(status) && status is Enabled,
        steps[1].requests(Request::ReadKeychain(KeychainKey::NamespaceId)),
        replies[1] matches Reply::Keychain(Some(namespace)) && steps[2].requests(
            Request::ListWalletBackups { namespace },
        ),
        replies[2] matches Reply::Listed(first) && match first {
            Ok(listed) => compares_listing(listed, detail, steps, replies, 2),
            Err(error) => {
                &&& error is NotFound
                &&& steps[3].requests(Request::Call(Operation::ReuploadAllWallets))
                &&& replies[3] matches Reply::Returned(Outcome::Finished(Ok(_)))
                &&& steps[4].requests(Request::ReadKeychain(KeychainKey::NamespaceId))
                &&& replies[4] matches Reply::Keychain(stored)
                &&& steps[5] matches Progress::Ask {
                    request: Request::ListWalletBackups { namespace },
                    ..
                }
                &&& match stored {
                    Some(id) => namespace@ == id@,
                    None => namespace@.len() == 0,
                }
                &&& replies[5] matches Reply::Listed(Ok(listed))
                &&& compares_listing(listed, detail, steps, replies, 5)
            },
        },
{
    assert(continues(steps[0], replies[0], steps[1]));
    assert(continues(steps[1], replies[1], steps[2]));
    assert(continues(steps[2], replies[2], steps[3]));
    assert(continues(steps[3], replies[3], steps[4]));
    assert(continues(steps[4], replies[4], steps[5]));
    if steps[5] is Ask {
        assert(continues(steps[5], replies[5], steps[6]));
        assert(continues(steps[6], replies[6], steps[7]));
        assert(continues(steps[7], replies[7], steps[8]));
        lemma_stop_is_last(steps, replies, 8);
    } else {
        lemma_stop_is_last(steps, replies, 5);
    }
}

/// A detail that cannot be refreshed says what failed, and a backup that is not on has none.
pub proof fn law_unrefreshed_detail_says_why(
    steps: Seq<Progress<RefreshDetailFlow, Option<CloudBackupDetailResult>>>,
    replies: Seq<Reply>,
    value: Option<CloudBackupDetailResult>,
)
    requires
        RefreshDetailFlow::began(steps[0]),
        is_conversation(steps, replies),
        steps.last() matches Progress::Done { value: given, .. } && given == value,
    ensures
        value is None <==> (replies[0] matches Reply::Status(status) && !(status is Enabled)),
        value matches Some(CloudBackupDetailResult::AccessError(text)) ==> match replies.last() {
            Reply::Keychain(None) => text@ == "internal error"@ + ": "@
                + "namespace_id not found in keychain"@,
            Reply::Listed(Err(why)) => text@ == why.text()@ && (replies.len() == 3 ==> !(
            why is NotFound)),
            Reply::Returned(Outcome::Finished(Err(error))) => text@
                == "Failed to re-upload wallets"@ + ": "@ + error@.message(),
            _ => false,
        },
{
    let end = replies.len() - 1;
    assert(continues(steps[0], replies[0], steps[1]));
    assert(continues(steps[end], replies[end], steps[end + 1]));
    lemma_first_steps(steps, replies, end);
    if !(steps[1] is Ask) {
        lemma_stop_is_last(steps, replies, 1);
    }
}

proof fn lemma_first_steps(
    steps: Seq<Progress<RefreshDetailFlow, Option<CloudBackupDetailResult>>>,
    replies: Seq<Reply>,
    at: int,
)
    requires
        RefreshDetailFlow::began(steps[0]),
        is_conversation(steps, replies),
        0 <= at < steps.len(),
    ensures
        steps[at] matches Progress::Ask { flow, .. } ==> match flow {
            RefreshDetailFlow::Status => at == 0,
            RefreshDetailFlow::Namespace => at == 1,
            RefreshDetailFlow::Listing => at == 2,
            _ => at > 2,
        },
    decreases at,
{
    if at > 0 {
        lemma_first_steps(steps, replies, at - 1);
        assert(continues(steps[at - 1], replies[at - 1], steps[at]));
    }
}

} // verus!
