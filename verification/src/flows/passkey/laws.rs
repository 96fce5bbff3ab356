//! What passkey ceremonies do, from their first step to their last.

use vstd::prelude::*;

use crate::conversation::{continues, is_conversation, lemma_stop_is_last, Stepwise};
use crate::error::{CloudBackupError, PasskeyError};
use crate::flows::passkey::{AuthenticateFlow, PrfKeyFlow};
use crate::hexcode::{hex_bytes, hex_text, is_hex_text};
use crate::protocol::{
    Attempt, Effect, KeychainKey, PasskeyAuthOutcome, Progress, Reply, Request, UnpersistedPrfKey,
};

verus! {

impl Stepwise for PrfKeyFlow {
    type Value = Result<UnpersistedPrfKey, CloudBackupError>;

    open spec fn follows(self, reply: Reply, progress: Attempt<Self, UnpersistedPrfKey>) -> bool {
        self.next(reply, progress)
    }
}

impl Stepwise for AuthenticateFlow {
    type Value = Result<PasskeyAuthOutcome, CloudBackupError>;

    open spec fn follows(self, reply: Reply, progress: Attempt<Self, PasskeyAuthOutcome>) -> bool {
        self.next(reply, progress)
    }
}

/// The key of a new passkey is the output of the passkey that was just created, asked with the salt
/// that was just drawn and with a challenge of its own; salt and credential are given back with it.
/// Creating and asking use different challenges, each drawn for its purpose.
pub proof fn law_new_key_is_the_output_under_its_salt(
    persist: bool,
    steps: Seq<Attempt<PrfKeyFlow, UnpersistedPrfKey>>,
    replies: Seq<Reply>,
    key: UnpersistedPrfKey,
)
    requires
        PrfKeyFlow::began(persist, steps[0]),
        is_conversation(steps, replies),
        steps.last() matches Progress::Done { value: Ok(given), .. } && given == key,
    ensures
        replies.len() >= 4,
        steps[0].requests(Request::DrawPasskeySeed),
        steps[2].requests(Request::DrawChallenge),
        replies[0] matches Reply::Seed(seed) && (replies[1] matches Reply::Passkey(
            Ok(credential_id),
        ) && (replies[2] matches Reply::Challenge(drawn) && (replies[3] matches Reply::Passkey(
            Ok(output),
        ) && {
            &&& steps[1] matches Progress::Ask {
                request: Request::CreatePasskey { rp_id, user_id, challenge },
                ..
            } && rp_id@ == "covebitcoinwallet.com"@ && user_id == seed.user_id && challenge
                == seed.challenge
            &&& steps[3] matches Progress::Ask {
                request: Request::AuthenticateWithPrf {
                    rp_id,
                    credential_id: asked,
                    prf_salt,
                    challenge,
                },
                ..
            } && rp_id@ == "covebitcoinwallet.com"@ && asked@ == credential_id@ && prf_salt
                == seed.prf_salt && challenge == drawn
            &&& output@.len() == 32
            &&& key.prf_key@ == output@
            &&& key.prf_salt == seed.prf_salt
            &&& key.credential_id@ == credential_id@
        }))),
{
    assert(continues(steps[0], replies[0], steps[1]));
    assert(continues(steps[1], replies[1], steps[2]));
    assert(continues(steps[2], replies[2], steps[3]));
    assert(continues(steps[3], replies[3], steps[4]));
    if persist {
        assert(continues(steps[4], replies[4], steps[5]));
        assert(continues(steps[5], replies[5], steps[6]));
        lemma_stop_is_last(steps, replies, 6);
    } else {
        lemma_stop_is_last(steps, replies, 4);
    }
}

/// A new passkey that is to be stored replaces the former one: both entries of that are forgotten
/// first, and the credential and the salt of the new one are both saved before the key is given
/// back.
pub proof fn law_stored_passkey_replaces_the_former(
    steps: Seq<Attempt<PrfKeyFlow, UnpersistedPrfKey>>,
    replies: Seq<Reply>,
    key: UnpersistedPrfKey,
)
    requires
        PrfKeyFlow::began(true, steps[0]),
        is_conversation(steps, replies),
        steps.last() matches Progress::Done { value: Ok(given), .. } && given == key,
    ensures
        steps[0] matches Progress::Ask { effects, .. } && effects@ == seq![
            Effect::ForgetKeychain(KeychainKey::CredentialId),
            Effect::ForgetKeychain(KeychainKey::PrfSalt),
        ],
        replies.len() == 6,
        steps[4] matches Progress::Ask { request: Request::SaveKeychain { key: entry, value }, .. }
            && entry is CredentialId && value@ == hex_text(key.credential_id@),
        replies[4] matches Reply::Written(Ok(_)),
        steps[5] matches Progress::Ask { request: Request::SaveKeychain { key: entry, value }, .. }
            && entry is PrfSalt && value@ == hex_text(key.prf_salt@),
        replies[5] matches Reply::Written(Ok(_)),
{
    assert(continues(steps[0], replies[0], steps[1]));
    assert(continues(steps[1], replies[1], steps[2]));
    assert(continues(steps[2], replies[2], steps[3]));
    assert(continues(steps[3], replies[3], steps[4]));
    assert(continues(steps[4], replies[4], steps[5]));
    assert(continues(steps[5], replies[5], steps[6]));
    lemma_stop_is_last(steps, replies, 6);
}

/// No passkey is made without its dialogue, and none is given back after a failure: whatever the
/// platform or the keychain refuses ends the ceremony with its own words.
pub proof fn law_failed_ceremony_gives_no_key(
    persist: bool,
    steps: Seq<Attempt<PrfKeyFlow, UnpersistedPrfKey>>,
    replies: Seq<Reply>,
    error: CloudBackupError,
)
    requires
        PrfKeyFlow::began(persist, steps[0]),
        is_conversation(steps, replies),
        steps.last() matches Progress::Done { value: Err(given), .. } && given == error,
    ensures
        match replies.last() {
            Reply::Passkey(Err(failure)) => error matches CloudBackupError::Passkey(text) && text@
                == failure.message@,
            Reply::Passkey(Ok(output)) => output@.len() != 32 && (
            error matches CloudBackupError::Internal(text) && text@
                == "PRF output is not 32 bytes"@),
            Reply::Written(Err(why)) => {
                &&& persist
                &&& error matches CloudBackupError::Internal(text)
                &&& text@ == if replies.len() == 5 {
                    "save credential"@ + ": "@ + why@
                } else {
                    "save prf_salt"@ + ": "@ + why@
                }
            },
            _ => false,
        },
{
    let end = replies.len() - 1;
    assert(continues(steps[0], replies[0], steps[1]));
    assert(continues(steps[end], replies[end], steps[end + 1]));
    lemma_persist_stays(persist, steps, replies, end);
}

proof fn lemma_persist_stays(
    persist: bool,
    steps: Seq<Attempt<PrfKeyFlow, UnpersistedPrfKey>>,
    replies: Seq<Reply>,
    at: int,
)
    requires
        PrfKeyFlow::began(persist, steps[0]),
        is_conversation(steps, replies),
        0 <= at < steps.len(),
    ensures
        steps[at] matches Progress::Ask { flow, .. } ==> {
            &&& flow.persist == persist
            &&& flow.phase is Seed <==> at == 0
            &&& flow.phase is Create <==> at == 1
            &&& flow.phase is Challenge <==> at == 2
            &&& flow.phase is Authenticate <==> at == 3
            &&& flow.phase is SaveCredential <==> at == 4
            &&& flow.phase is SaveSalt <==> at == 5
            &&& at >= 4 ==> persist
        },
    decreases at,
{
    if at > 0 {
        lemma_persist_stays(persist, steps, replies, at - 1);
        assert(continues(steps[at - 1], replies[at - 1], steps[at]));
    }
}

/// Every dialogue of an authentication is asked with the salt that the caller gave and the
/// challenge drawn just before. The stored credential comes first, as the keychain's text spells
/// it; the user is asked to pick one only if there is none, or if it failed otherwise than by the
/// user's cancelling.
pub proof fn law_authentication_asks_with_the_given_salt(
    given: [u8; 32],
    steps: Seq<Attempt<AuthenticateFlow, PasskeyAuthOutcome>>,
    replies: Seq<Reply>,
    at: int,
)
    requires
        AuthenticateFlow::began(given, steps[0]),
        is_conversation(steps, replies),
        0 <= at < steps.len(),
    ensures
        steps[0].requests(Request::ReadKeychain(KeychainKey::CredentialId)),
        steps[at] matches Progress::Ask {
            request: Request::AuthenticateWithPrf { rp_id, credential_id, prf_salt, challenge },
            ..
        } ==> {
            &&& at == 2
            &&& rp_id@ == "covebitcoinwallet.com"@
            &&& prf_salt == given
            &&& replies[0] matches Reply::Keychain(Some(stored))
            &&& is_hex_text(stored@)
            &&& credential_id@ == hex_bytes(stored@)
            &&& steps[1].requests(Request::DrawChallenge)
            &&& replies[1] == Reply::Challenge(challenge)
        },
        steps[at] matches Progress::Ask {
            request: Request::DiscoverAndAuthenticate { rp_id, prf_salt, challenge },
            ..
        } ==> {
            &&& rp_id@ == "covebitcoinwallet.com"@
            &&& prf_salt == given
            &&& steps[at - 1].requests(Request::DrawChallenge)
            &&& replies[at - 1] == Reply::Challenge(challenge)
            &&& if at == 2 {
                replies[0] matches Reply::Keychain(stored) && (stored matches Some(text)
                    ==> !is_hex_text(text@))
            } else {
                at == 4 && (replies[2] matches Reply::Passkey(Err(failure))
                    && !(failure.error is UserCancelled))
            }
        },
{
    if at > 0 {
        assert(continues(steps[0], replies[0], steps[1]));
    }
    if at > 1 {
        assert(continues(steps[1], replies[1], steps[2]));
    }
    if at > 2 {
        assert(continues(steps[2], replies[2], steps[3]));
    }
    if at > 3 {
        assert(continues(steps[3], replies[3], steps[4]));
    }
    if at > 4 {
        assert(continues(steps[4], replies[4], steps[5]));
        lemma_stop_is_last(steps, replies, 5);
    }
}

/// An authentication gives back the output of the passkey that the user agreed to, and the
/// credential that it came from: the stored one, or the one that the user picked, which counts as
/// recovered. A user who cancels is taken at their word, and a failure of the dialogue is told
/// apart by its kind.
pub proof fn law_authentication_gives_the_passkeys_output(
    given: [u8; 32],
    steps: Seq<Attempt<AuthenticateFlow, PasskeyAuthOutcome>>,
    replies: Seq<Reply>,
    value: Result<PasskeyAuthOutcome, CloudBackupError>,
)
    requires
        AuthenticateFlow::began(given, steps[0]),
        is_conversation(steps, replies),
        steps.last() matches Progress::Done { value: end, .. } && end == value,
    ensures
        match value {
            Ok(PasskeyAuthOutcome::Authenticated(passkey)) => match replies.last() {
                Reply::Passkey(Ok(output)) => {
                    &&& replies.len() == 3
                    &&& passkey.prf_key@ == output@
                    &&& !passkey.credential_recovered
                    &&& replies[0] matches Reply::Keychain(Some(stored))
                    &&& passkey.credential_id@ == hex_bytes(stored@)
                },
                Reply::Discovered(Ok(discovered)) => {
                    &&& passkey.prf_key@ == discovered.prf_output@
                    &&& passkey.credential_id@ == discovered.credential_id@
                    &&& passkey.credential_recovered
                },
                _ => false,
            },
            Ok(PasskeyAuthOutcome::UserCancelled) => match replies.last() {
                Reply::Passkey(Err(failure)) => failure.error is UserCancelled,
                Reply::Discovered(Err(failure)) => failure.error is UserCancelled,
                _ => false,
            },
            Ok(PasskeyAuthOutcome::NoCredentialFound) => replies.last() matches Reply::Discovered(
                Err(failure),
            ) && failure.error is NoCredentialFound,
            Err(CloudBackupError::Passkey(text)) => replies.last() matches Reply::Discovered(
                Err(failure),
            ) && match failure.error {
                PasskeyError::AuthenticationFailed(why) => text@ == "authentication failed"@
                    + ": "@ + why@,
                PasskeyError::Other(why) => text@ == why@,
                _ => false,
            },
            Err(error) => (error matches CloudBackupError::Internal(text) && text@
                == "PRF output is not 32 bytes"@) && match replies.last() {
                Reply::Passkey(Ok(output)) => output@.len() != 32,
                Reply::Discovered(Ok(discovered)) => discovered.prf_output@.len() != 32,
                _ => false,
            },
        },
{
    assert(continues(steps[0], replies[0], steps[1]));
    assert(continues(steps[1], replies[1], steps[2]));
    assert(continues(steps[2], replies[2], steps[3]));
    if steps[3] is Ask {
        assert(continues(steps[3], replies[3], steps[4]));
        assert(continues(steps[4], replies[4], steps[5]));
        lemma_stop_is_last(steps, replies, 5);
    } else {
        lemma_stop_is_last(steps, replies, 3);
    }
}

} // verus!
