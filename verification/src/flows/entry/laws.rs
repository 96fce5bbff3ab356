//! What the entry of a wallet is made from, from the first read to the last.

use vstd::prelude::*;

use crate::conversation::{continues, is_conversation, lemma_stop_is_last, Stepwise};
use crate::error::CloudBackupError;
use crate::flows::entry::WalletEntryFlow;
use crate::protocol::{Attempt, Progress, Reply, Request};
use crate::wallet::{CloudWalletSecret, WalletEntry, WalletMetadata, WalletMode};

verus! {

impl Stepwise for WalletEntryFlow {
    type Value = Result<WalletEntry, CloudBackupError>;

    open spec fn follows(self, reply: Reply, progress: Attempt<Self, WalletEntry>) -> bool {
        self.next(reply, progress)
    }
}

/// Whether the type of a wallet says that the keychain may hold a secret of it.
pub open spec fn may_have_secret(wallet: WalletMetadata) -> bool {
    wallet.wallet_type is Hot || (wallet.wallet_type is Cold && wallet.is_tap_signer)
}

/// The entry of a wallet is made of that wallet alone: every read names its identifier, its
/// metadata are what is encoded, and each part of the entry is what was read for it. A hot wallet's
/// secret is its recovery phrase, a tap signer's is its backup if it has one, and no other wallet's
/// is read.
pub proof fn law_entry_is_read_from_its_wallet(
    wallet: WalletMetadata,
    mode: WalletMode,
    steps: Seq<Attempt<WalletEntryFlow, WalletEntry>>,
    replies: Seq<Reply>,
    entry: WalletEntry,
)
    requires
        WalletEntryFlow::began(wallet, mode, steps[0]),
        is_conversation(steps, replies),
        steps.last() matches Progress::Done { value: Ok(given), .. } && given == entry,
    ensures
        ({
            let first: int = if may_have_secret(wallet) {
                1
            } else {
                0
            };
            &&& replies.len() == first + 3
            &&& entry.wallet_id == wallet.id
            &&& entry.wallet_mode == mode
            &&& if wallet.wallet_type is Hot {
                &&& steps[0].requests(Request::ReadMnemonic { wallet_id: wallet.id })
                &&& replies[0] matches Reply::Text(Ok(Some(words)))
                &&& entry.secret == CloudWalletSecret::Mnemonic(words)
            } else if may_have_secret(wallet) {
                &&& steps[0].requests(Request::ReadTapSignerBackup { wallet_id: wallet.id })
                &&& replies[0] matches Reply::Backup(Ok(backup))
                &&& match backup {
                    Some(bytes) => entry.secret == CloudWalletSecret::TapSignerBackup(bytes),
                    None => entry.secret is WatchOnly,
                }
            } else {
                entry.secret is WatchOnly
            }
            &&& steps[first].requests(Request::ReadXpub { wallet_id: wallet.id })
            &&& replies[first] == Reply::Text(Ok(entry.xpub))
            &&& steps[first + 1].requests(Request::ReadDescriptors { wallet_id: wallet.id })
            &&& replies[first + 1] == Reply::Descriptors(Ok(entry.descriptors))
            &&& steps[first + 2].requests(Request::EncodeMetadata { wallet })
            &&& replies[first + 2] == Reply::Json(Ok(entry.metadata))
        }),
{
    assert(continues(steps[0], replies[0], steps[1]));
    assert(continues(steps[1], replies[1], steps[2]));
    assert(continues(steps[2], replies[2], steps[3]));
    if may_have_secret(wallet) {
        assert(continues(steps[3], replies[3], steps[4]));
        lemma_stop_is_last(steps, replies, 4);
    } else {
        lemma_stop_is_last(steps, replies, 3);
    }
}

/// A read that failed, or a hot wallet without a phrase, gives no entry: the failure is reported,
/// with the name of the wallet and the words of the failure.
pub proof fn law_failed_read_gives_no_entry(
    wallet: WalletMetadata,
    mode: WalletMode,
    steps: Seq<Attempt<WalletEntryFlow, WalletEntry>>,
    replies: Seq<Reply>,
    error: CloudBackupError,
)
    requires
        WalletEntryFlow::began(wallet, mode, steps[0]),
        is_conversation(steps, replies),
        steps.last() matches Progress::Done { value: Err(given), .. } && given == error,
    ensures
        error matches CloudBackupError::Internal(text) && match replies.last() {
            Reply::Text(Ok(None)) => wallet.wallet_type is Hot && replies.len() == 1 && text@
                == "hot wallet '"@ + wallet.name@ + "' has no mnemonic"@,
            Reply::Text(Err(why)) => if wallet.wallet_type is Hot && replies.len() == 1 {
                text@ == "failed to get mnemonic for '"@ + wallet.name@ + "': "@ + why@
            } else {
                text@ == "failed to read xpub for '"@ + wallet.name@ + "': "@ + why@
            },
            Reply::Backup(Err(why)) => text@ == "failed to read tap signer backup for '"@
                + wallet.name@ + "': "@ + why@,
            Reply::Descriptors(Err(why)) => text@ == "failed to read descriptors for '"@
                + wallet.name@ + "': "@ + why@,
            Reply::Json(Err(why)) => text@ == "serialize metadata"@ + ": "@ + why@,
            _ => false,
        },
{
    assert(continues(steps[0], replies[0], steps[1]));
    if steps[1] is Ask {
        assert(continues(steps[1], replies[1], steps[2]));
        if steps[2] is Ask {
            assert(continues(steps[2], replies[2], steps[3]));
            if steps[3] is Ask {
                assert(continues(steps[3], replies[3], steps[4]));
                lemma_stop_is_last(steps, replies, 4);
            } else {
                lemma_stop_is_last(steps, replies, 3);
            }
        } else {
            lemma_stop_is_last(steps, replies, 2);
        }
    } else {
        lemma_stop_is_last(steps, replies, 1);
    }
}

} // verus!
