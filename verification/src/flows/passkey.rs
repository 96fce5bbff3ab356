//! Passkey ceremonies.

pub mod laws;

use vstd::prelude::*;

use crate::entropy::{bytes_of_key, key_from_bytes, PasskeySeed};
use crate::error::{
    internal_error, CloudBackupError, CloudBackupErrorView, PasskeyError, PasskeyFailure,
};
use crate::hexcode::{from_hex, hex_bytes, hex_text, is_hex_text, law_hex_read_back, to_hex};
use crate::protocol::{
    fail, fails, two_effects, Attempt, AuthenticatedPasskey, Effect, KeychainKey,
    PasskeyAuthOutcome, Progress, Reply, Request, UnpersistedPrfKey, RP_ID,
};
use crate::text::{copy_bytes, owned, prefixed, prefixed_text};

verus! {

/// The error of a passkey whose output cannot serve as a key.
pub open spec fn output_too_odd() -> CloudBackupErrorView {
    CloudBackupErrorView::Internal("PRF output is not 32 bytes"@)
}

/// The error of a passkey whose output cannot serve as a key.
pub fn odd_output() -> (error: CloudBackupError)
    ensures
        error@ == output_too_odd(),
{
    CloudBackupError::Internal(owned("PRF output is not 32 bytes"))
}

/// The error of a passkey ceremony that the platform failed.
pub fn from_passkey_failure(failure: PasskeyFailure) -> (error: CloudBackupError)
    ensures
        error@ == CloudBackupErrorView::Passkey(failure.message@),
{
    CloudBackupError::Passkey(failure.message)
}

/// The credential that a keychain entry stands for; an entry that is no hexadecimal text stands for
/// none.
pub open spec fn stored_credential(stored: Option<String>) -> Option<Seq<u8>> {
    match stored {
        Some(text) => if is_hex_text(text@) {
            Some(hex_bytes(text@))
        } else {
            None
        },
        None => None,
    }
}

/// The credential that a keychain entry stands for.
pub fn load_stored_credential_id(stored: Option<String>) -> (credential_id: Option<Vec<u8>>)
    ensures
        credential_id is Some <==> stored_credential(stored) is Some,
        credential_id matches Some(bytes) ==> stored_credential(stored) == Some(bytes@),
{
    match stored {
        Some(text) => from_hex(&text),
        None => None,
    }
}

/// A request to authenticate with a known credential.
pub open spec fn authenticates(
    request: Request,
    credential_id: Seq<u8>,
    prf_salt: [u8; 32],
    challenge: [u8; 32],
) -> bool {
    &&& request matches Request::AuthenticateWithPrf {
        rp_id,
        credential_id: credential,
        prf_salt: salt,
        challenge: drawn,
    }
    &&& rp_id == RP_ID
    &&& credential@ == credential_id
    &&& salt == prf_salt
    &&& drawn == challenge
}

/// Creates a passkey, and authenticates with it for the key that wraps the master key.
pub struct PrfKeyFlow {
    /// Whether the keychain takes the new passkey in place of the one it has.
    pub persist: bool,
    pub phase: PrfKeyPhase,
}

/// How far the new passkey is.
pub enum PrfKeyPhase {
    Seed,
    Create { prf_salt: [u8; 32] },
    Challenge { prf_salt: [u8; 32], credential_id: Vec<u8> },
    Authenticate { prf_salt: [u8; 32], credential_id: Vec<u8> },
    SaveCredential { key: UnpersistedPrfKey },
    SaveSalt { key: UnpersistedPrfKey },
}

impl PrfKeyFlow {
    /// The keychain forgets the passkey that it has, if it is to take the new one.
    pub open spec fn forgets(persist: bool) -> Seq<Effect> {
        if persist {
            seq![
                Effect::ForgetKeychain(KeychainKey::CredentialId),
                Effect::ForgetKeychain(KeychainKey::PrfSalt),
            ]
        } else {
            Seq::empty()
        }
    }

    /// The key of a passkey with this output.
    pub open spec fn is_key(
        key: UnpersistedPrfKey,
        output: Seq<u8>,
        prf_salt: [u8; 32],
        credential_id: Seq<u8>,
    ) -> bool {
        &&& key.prf_key@ == output
        &&& key.prf_salt == prf_salt
        &&& key.credential_id@ == credential_id
    }

    /// What follows a reply.
    pub open spec fn next(self, reply: Reply, progress: Attempt<Self, UnpersistedPrfKey>) -> bool {
        match (self.phase, reply) {
            (PrfKeyPhase::Seed, Reply::Seed(seed)) => progress.asks(
                PrfKeyFlow { phase: PrfKeyPhase::Create { prf_salt: seed.prf_salt }, ..self },
                Request::CreatePasskey {
                    rp_id: RP_ID,
                    user_id: seed.user_id,
                    challenge: seed.challenge,
                },
            ),
            (PrfKeyPhase::Create { prf_salt }, Reply::Passkey(Ok(credential_id))) => progress.asks(
                PrfKeyFlow { phase: PrfKeyPhase::Challenge { prf_salt, credential_id }, ..self },
                Request::DrawChallenge,
            ),
            (PrfKeyPhase::Create { prf_salt }, Reply::Passkey(Err(failure))) => fails(
                progress,
                CloudBackupErrorView::Passkey(failure.message@),
            ),
            (
                PrfKeyPhase::Challenge { prf_salt, credential_id },
                Reply::Challenge(challenge),
            ) => {
                &&& progress matches Progress::Ask { flow, effects, request }
                &&& flow == (PrfKeyFlow {
                    phase: PrfKeyPhase::Authenticate { prf_salt, credential_id },
                    ..self
                })
                &&& effects@ == Seq::<Effect>::empty()
                &&& authenticates(request, credential_id@, prf_salt, challenge)
            },
            (
                PrfKeyPhase::Authenticate { prf_salt, credential_id },
                Reply::Passkey(Ok(output)),
            ) => if output@.len() != 32 {
                fails(progress, output_too_odd())
            } else if self.persist {
                &&& progress matches Progress::Ask {
                    flow: PrfKeyFlow { persist: true, phase: PrfKeyPhase::SaveCredential { key } },
                    effects,
                    request: Request::SaveKeychain { key: KeychainKey::CredentialId, value },
                }
                &&& effects@ == Seq::<Effect>::empty()
                &&& Self::is_key(key, output@, prf_salt, credential_id@)
                &&& value@ == hex_text(credential_id@)
            } else {
                &&& progress matches Progress::Done { effects, value: Ok(key) }
                &&& effects@ == Seq::<Effect>::empty()
                &&& Self::is_key(key, output@, prf_salt, credential_id@)
            },
            (
                PrfKeyPhase::Authenticate { prf_salt, credential_id },
                Reply::Passkey(Err(failure)),
            ) => fails(progress, CloudBackupErrorView::Passkey(failure.message@)),
            (PrfKeyPhase::SaveCredential { key }, Reply::Written(Ok(_))) => {
                &&& progress matches Progress::Ask {
                    flow,
                    effects,
                    request: Request::SaveKeychain { key: KeychainKey::PrfSalt, value },
                }
                &&& flow == (PrfKeyFlow { phase: PrfKeyPhase::SaveSalt { key }, ..self })
                &&& effects@ == Seq::<Effect>::empty()
                &&& value@ == hex_text(key.prf_salt@)
            },
            (PrfKeyPhase::SaveCredential { key }, Reply::Written(Err(error))) => fails(
                progress,
                CloudBackupErrorView::Internal(prefixed_text("save credential"@, error@)),
            ),
            (PrfKeyPhase::SaveSalt { key }, Reply::Written(Ok(_))) => progress.ends(Ok(key)),
            (PrfKeyPhase::SaveSalt { key }, Reply::Written(Err(error))) => fails(
                progress,
                CloudBackupErrorView::Internal(prefixed_text("save prf_salt"@, error@)),
            ),
            _ => progress.refuses(self),
        }
    }

    /// The first step.
    pub open spec fn began(persist: bool, progress: Attempt<Self, UnpersistedPrfKey>) -> bool {
        progress.asks_after(
            Self::forgets(persist),
            PrfKeyFlow { persist, phase: PrfKeyPhase::Seed },
            Request::DrawPasskeySeed,
        )
    }

    /// Starts with the random values of the new passkey.
    pub fn start(persist: bool) -> (progress: Attempt<Self, UnpersistedPrfKey>)
        ensures
            Self::began(persist, progress),
    {
        let effects: Vec<Effect> = if persist {
            two_effects(
                Effect::ForgetKeychain(KeychainKey::CredentialId),
                Effect::ForgetKeychain(KeychainKey::PrfSalt),
            )
        } else {
            Vec::new()
        };
        Progress::Ask {
            flow: PrfKeyFlow { persist, phase: PrfKeyPhase::Seed },
            effects,
            request: Request::DrawPasskeySeed,
        }
    }

    /// Goes on with a reply.
    pub fn step(self, reply: Reply) -> (progress: Attempt<Self, UnpersistedPrfKey>)
        ensures
            self.next(reply, progress),
    {
        let PrfKeyFlow { persist, phase } = self;
        match (phase, reply) {
            (PrfKeyPhase::Seed, Reply::Seed(seed)) => Progress::ask(
                PrfKeyFlow { persist, phase: PrfKeyPhase::Create { prf_salt: seed.prf_salt } },
                Request::CreatePasskey {
                    rp_id: RP_ID,
                    user_id: seed.user_id,
                    challenge: seed.challenge,
                },
            ),
            (PrfKeyPhase::Create { prf_salt }, Reply::Passkey(Ok(credential_id))) => Progress::ask(
                PrfKeyFlow { persist, phase: PrfKeyPhase::Challenge { prf_salt, credential_id } },
                Request::DrawChallenge,
            ),
            (PrfKeyPhase::Create { .. }, Reply::Passkey(Err(failure))) => fail(
                from_passkey_failure(failure),
            ),
            (
                PrfKeyPhase::Challenge { prf_salt, credential_id },
                Reply::Challenge(challenge),
            ) => {
                let credential: Vec<u8> = copy_bytes(&credential_id);
                Progress::ask(
                    PrfKeyFlow {
                        persist,
                        phase: PrfKeyPhase::Authenticate { prf_salt, credential_id },
                    },
                    Request::AuthenticateWithPrf {
                        rp_id: RP_ID,
                        credential_id: credential,
                        prf_salt,
                        challenge,
                    },
                )
            },
            (
                PrfKeyPhase::Authenticate { prf_salt, credential_id },
                Reply::Passkey(Ok(output)),
            ) => match key_from_bytes(&output) {
                Some(prf_key) => {
                    let value: String = to_hex(&credential_id);
                    let key = UnpersistedPrfKey { prf_key, prf_salt, credential_id };
                    if persist {
                        Progress::ask(
                            PrfKeyFlow { persist, phase: PrfKeyPhase::SaveCredential { key } },
                            Request::SaveKeychain { key: KeychainKey::CredentialId, value },
                        )
                    } else {
                        Progress::end(Ok(key))
                    }
                },
                None => fail(odd_output()),
            },
            (PrfKeyPhase::Authenticate { .. }, Reply::Passkey(Err(failure))) => fail(
                from_passkey_failure(failure),
            ),
            (PrfKeyPhase::SaveCredential { key }, Reply::Written(Ok(_))) => {
                let value: String = to_hex(&bytes_of_key(&key.prf_salt));
                Progress::ask(
                    PrfKeyFlow { persist, phase: PrfKeyPhase::SaveSalt { key } },
                    Request::SaveKeychain { key: KeychainKey::PrfSalt, value },
                )
            },
            (PrfKeyPhase::SaveCredential { .. }, Reply::Written(Err(error))) => fail(
                internal_error("save credential", &error),
            ),
            (PrfKeyPhase::SaveSalt { key }, Reply::Written(Ok(_))) => Progress::end(Ok(key)),
            (PrfKeyPhase::SaveSalt { .. }, Reply::Written(Err(error))) => fail(
                internal_error("save prf_salt", &error),
            ),
            (phase, _) => Progress::Refused { flow: PrfKeyFlow { persist, phase } },
        }
    }
}

/// How an authentication ends when discovery failed.
pub open spec fn discovery_failure(error: PasskeyError) -> Result<
    PasskeyAuthOutcome,
    CloudBackupErrorView,
> {
    match error {
        PasskeyError::UserCancelled => Ok(PasskeyAuthOutcome::UserCancelled),
        PasskeyError::NoCredentialFound => Ok(PasskeyAuthOutcome::NoCredentialFound),
        PasskeyError::AuthenticationFailed(text) => Err(
            CloudBackupErrorView::Passkey(prefixed_text("authentication failed"@, text@)),
        ),
        PasskeyError::Other(text) => Err(CloudBackupErrorView::Passkey(text@)),
    }
}

/// Whether `result` is `expected`, errors taken by their text.
pub open spec fn same_result<T>(
    result: Result<T, CloudBackupError>,
    expected: Result<T, CloudBackupErrorView>,
) -> bool {
    match expected {
        Ok(value) => result == Ok::<T, CloudBackupError>(value),
        Err(view) => result matches Err(error) && error@ == view,
    }
}

/// How an authentication ends when discovery failed.
pub fn map_discovery_error(error: PasskeyError) -> (result: Result<
    PasskeyAuthOutcome,
    CloudBackupError,
>)
    ensures
        same_result(result, discovery_failure(error)),
{
    match error {
        PasskeyError::UserCancelled => Ok(PasskeyAuthOutcome::UserCancelled),
        PasskeyError::NoCredentialFound => Ok(PasskeyAuthOutcome::NoCredentialFound),
        PasskeyError::AuthenticationFailed(text) => Err(
            CloudBackupError::Passkey(prefixed("authentication failed", text.as_str())),
        ),
        PasskeyError::Other(text) => Err(CloudBackupError::Passkey(text)),
    }
}

/// Authenticates with the credential of the keychain, and with one that the user picks where that
/// fails.
pub struct AuthenticateFlow {
    pub prf_salt: [u8; 32],
    pub phase: AuthenticatePhase,
}

/// How far the authentication is.
pub enum AuthenticatePhase {
    Stored,
    StoredChallenge { credential_id: Vec<u8> },
    StoredCredential { credential_id: Vec<u8> },
    DiscoveryChallenge,
    Discovery,
}

impl AuthenticateFlow {
    /// The user picks a credential.
    pub open spec fn discovers(self, progress: Attempt<Self, PasskeyAuthOutcome>) -> bool {
        progress.asks(
            AuthenticateFlow { phase: AuthenticatePhase::DiscoveryChallenge, ..self },
            Request::DrawChallenge,
        )
    }

    /// The end for an output of a passkey.
    pub open spec fn authenticated(
        output: Seq<u8>,
        credential_id: Seq<u8>,
        credential_recovered: bool,
        progress: Attempt<Self, PasskeyAuthOutcome>,
    ) -> bool {
        if output.len() != 32 {
            fails(progress, output_too_odd())
        } else {
            &&& progress matches Progress::Done {
                effects,
                value: Ok(PasskeyAuthOutcome::Authenticated(passkey)),
            }
            &&& effects@ == Seq::<Effect>::empty()
            &&& passkey.prf_key@ == output
            &&& passkey.credential_id@ == credential_id
            &&& passkey.credential_recovered == credential_recovered
        }
    }

    /// What follows a reply.
    pub open spec fn next(self, reply: Reply, progress: Attempt<Self, PasskeyAuthOutcome>) -> bool {
        match (self.phase, reply) {
            (AuthenticatePhase::Stored, Reply::Keychain(stored)) => match stored_credential(
                stored,
            ) {
                Some(credential) => {
                    &&& progress matches Progress::Ask {
                        flow: AuthenticateFlow {
                            prf_salt,
                            phase: AuthenticatePhase::StoredChallenge { credential_id },
                        },
                        effects,
                        request,
                    }
                    &&& prf_salt == self.prf_salt
                    &&& credential_id@ == credential
                    &&& effects@ == Seq::<Effect>::empty()
                    &&& request == Request::DrawChallenge
                },
                None => self.discovers(progress),
            },
            (
                AuthenticatePhase::StoredChallenge { credential_id },
                Reply::Challenge(challenge),
            ) => {
                &&& progress matches Progress::Ask { flow, effects, request }
                &&& flow == (AuthenticateFlow {
                    phase: AuthenticatePhase::StoredCredential { credential_id },
                    ..self
                })
                &&& effects@ == Seq::<Effect>::empty()
                &&& authenticates(request, credential_id@, self.prf_salt, challenge)
            },
            (
                AuthenticatePhase::StoredCredential { credential_id },
                Reply::Passkey(Ok(output)),
            ) => Self::authenticated(output@, credential_id@, false, progress),
            (
                AuthenticatePhase::StoredCredential { credential_id },
                Reply::Passkey(Err(failure)),
            ) => if failure.error is UserCancelled {
                progress.ends(Ok(PasskeyAuthOutcome::UserCancelled))
            } else {
                self.discovers(progress)
            },
            (AuthenticatePhase::DiscoveryChallenge, Reply::Challenge(challenge)) => progress.asks(
                AuthenticateFlow { phase: AuthenticatePhase::Discovery, ..self },
                Request::DiscoverAndAuthenticate {
                    rp_id: RP_ID,
                    prf_salt: self.prf_salt,
                    challenge,
                },
            ),
            (AuthenticatePhase::Discovery, Reply::Discovered(Ok(discovered))) =>
                Self::authenticated(
                discovered.prf_output@,
                discovered.credential_id@,
                true,
                progress,
            ),
            (AuthenticatePhase::Discovery, Reply::Discovered(Err(failure))) => {
                &&& progress matches Progress::Done { effects, value }
                &&& effects@ == Seq::<Effect>::empty()
                &&& same_result(value, discovery_failure(failure.error))
            },
            _ => progress.refuses(self),
        }
    }

    fn discover(prf_salt: [u8; 32]) -> (progress: Attempt<Self, PasskeyAuthOutcome>)
        ensures
            progress.asks(
                AuthenticateFlow { prf_salt, phase: AuthenticatePhase::DiscoveryChallenge },
                Request::DrawChallenge,
            ),
    {
        Progress::ask(
            AuthenticateFlow { prf_salt, phase: AuthenticatePhase::DiscoveryChallenge },
            Request::DrawChallenge,
        )
    }

    fn finish(output: Vec<u8>, credential_id: Vec<u8>, credential_recovered: bool) -> (progress:
        Attempt<Self, PasskeyAuthOutcome>)
        ensures
            Self::authenticated(output@, credential_id@, credential_recovered, progress),
    {
        match key_from_bytes(&output) {
            Some(prf_key) => Progress::end(
                Ok(
                    PasskeyAuthOutcome::Authenticated(
                        AuthenticatedPasskey { prf_key, credential_id, credential_recovered },
                    ),
                ),
            ),
            None => fail(odd_output()),
        }
    }

    /// The first step.
    pub open spec fn began(
        prf_salt: [u8; 32],
        progress: Attempt<Self, PasskeyAuthOutcome>,
    ) -> bool {
        progress.asks(
            AuthenticateFlow { prf_salt, phase: AuthenticatePhase::Stored },
            Request::ReadKeychain(KeychainKey::CredentialId),
        )
    }

    /// Starts with the credential of the keychain.
    pub fn start(prf_salt: [u8; 32]) -> (progress: Attempt<Self, PasskeyAuthOutcome>)
        ensures
            Self::began(prf_salt, progress),
    {
        Progress::ask(
            AuthenticateFlow { prf_salt, phase: AuthenticatePhase::Stored },
            Request::ReadKeychain(KeychainKey::CredentialId),
        )
    }

    /// Goes on with a reply.
    pub fn step(self, reply: Reply) -> (progress: Attempt<Self, PasskeyAuthOutcome>)
        ensures
            self.next(reply, progress),
    {
        let AuthenticateFlow { prf_salt, phase } = self;
        match (phase, reply) {
            (AuthenticatePhase::Stored, Reply::Keychain(stored)) => match load_stored_credential_id(
                stored,
            ) {
                Some(credential_id) => Progress::ask(
                    AuthenticateFlow {
                        prf_salt,
                        phase: AuthenticatePhase::StoredChallenge { credential_id },
                    },
                    Request::DrawChallenge,
                ),
                None => Self::discover(prf_salt),
            },
            (
                AuthenticatePhase::StoredChallenge { credential_id },
                Reply::Challenge(challenge),
            ) => {
                let credential: Vec<u8> = copy_bytes(&credential_id);
                Progress::ask(
                    AuthenticateFlow {
                        prf_salt,
                        phase: AuthenticatePhase::StoredCredential { credential_id },
                    },
                    Request::AuthenticateWithPrf {
                        rp_id: RP_ID,
                        credential_id: credential,
                        prf_salt,
                        challenge,
                    },
                )
            },
            (
                AuthenticatePhase::StoredCredential { credential_id },
                Reply::Passkey(Ok(output)),
            ) => Self::finish(output, credential_id, false),
            (AuthenticatePhase::StoredCredential { .. }, Reply::Passkey(Err(failure))) => {
                if matches!(failure.error, PasskeyError::UserCancelled) {
                    Progress::end(Ok(PasskeyAuthOutcome::UserCancelled))
                } else {
                    Self::discover(prf_salt)
                }
            },
            (AuthenticatePhase::DiscoveryChallenge, Reply::Challenge(challenge)) => Progress::ask(
                AuthenticateFlow { prf_salt, phase: AuthenticatePhase::Discovery },
                Request::DiscoverAndAuthenticate { rp_id: RP_ID, prf_salt, challenge },
            ),
            (AuthenticatePhase::Discovery, Reply::Discovered(Ok(discovered))) => Self::finish(
                discovered.prf_output,
                discovered.credential_id,
                true,
            ),
            (AuthenticatePhase::Discovery, Reply::Discovered(Err(failure))) => Progress::end(
                map_discovery_error(failure.error),
            ),
            (phase, _) => Progress::Refused { flow: AuthenticateFlow { prf_salt, phase } },
        }
    }
}

impl PrfKeyFlow {
    /// Whether the new passkey is not to be stored.
    pub open spec fn leaves_keychain(self) -> bool {
        &&& !self.persist
        &&& !(self.phase is SaveCredential)
        &&& !(self.phase is SaveSalt)
    }
}

/// A passkey that is not to be stored leaves the keychain alone: none of the steps for it forgets
/// or saves an entry.
pub proof fn law_unstored_passkey_leaves_keychain(
    flow: PrfKeyFlow,
    reply: Reply,
    progress: Attempt<PrfKeyFlow, UnpersistedPrfKey>,
)
    requires
        PrfKeyFlow::began(false, progress) || (flow.leaves_keychain() && flow.next(
            reply,
            progress,
        )),
    ensures
        match progress {
            Progress::Ask { flow: later, effects, request } => {
                &&& later.leaves_keychain()
                &&& effects@.len() == 0
                &&& !(request is SaveKeychain)
            },
            Progress::Done { effects, .. } => effects@.len() == 0,
            Progress::Refused { flow: later } => later.leaves_keychain(),
        },
{
}

/// What follows a reply to a step that is waiting for one.
pub open spec fn then_reply(
    before: Attempt<PrfKeyFlow, UnpersistedPrfKey>,
    reply: Reply,
    after: Attempt<PrfKeyFlow, UnpersistedPrfKey>,
) -> bool {
    before matches Progress::Ask { flow, .. } && flow.next(reply, after)
}

/// Whether `steps` are those of one new passkey, from its start, with `replies` between them.
pub open spec fn is_run(
    persist: bool,
    steps: Seq<Attempt<PrfKeyFlow, UnpersistedPrfKey>>,
    replies: Seq<Reply>,
) -> bool {
    &&& steps.len() == replies.len() + 1
    &&& PrfKeyFlow::began(persist, steps[0])
    &&& forall|i: int|
        0 <= i < replies.len() ==> then_reply(steps[i], #[trigger] replies[i], steps[i + 1])
}

/// Whether a step asks the keychain to save the text of `bytes` under `key`.
pub open spec fn saves_bytes(
    progress: Attempt<PrfKeyFlow, UnpersistedPrfKey>,
    key: KeychainKey,
    bytes: Seq<u8>,
) -> bool {
    progress matches Progress::Ask { request: Request::SaveKeychain { key: entry, value }, .. }
        && entry == key && value@ == hex_text(bytes)
}

/// The key always comes from a passkey that was made for it: the one that is authenticated with is
/// the one that was just created, with the salt that was just drawn. If the passkey is to be
/// stored, the keychain has forgotten the former one, and both entries of the new one were saved.
pub proof fn law_key_comes_from_a_new_passkey(
    persist: bool,
    steps: Seq<Attempt<PrfKeyFlow, UnpersistedPrfKey>>,
    replies: Seq<Reply>,
    key: UnpersistedPrfKey,
)
    requires
        is_run(persist, steps, replies),
        steps.last() matches Progress::Done { value, .. } && value == Ok::<
            UnpersistedPrfKey,
            CloudBackupError,
        >(key),
    ensures
        replies.len() == if persist {
            6int
        } else {
            4
        },
        steps[0] matches Progress::Ask { effects, .. } && effects@ == PrfKeyFlow::forgets(persist),
        replies[0] matches Reply::Seed(seed) && (replies[1] matches Reply::Passkey(
            Ok(credential_id),
        ) && (replies[2] matches Reply::Challenge(challenge) && (
        replies[3] matches Reply::Passkey(Ok(output)) && {
            &&& steps[1] matches Progress::Ask { request, .. } && request
                == (Request::CreatePasskey {
                rp_id: RP_ID,
                user_id: seed.user_id,
                challenge: seed.challenge,
            })
            &&& steps[3] matches Progress::Ask { request, .. } && authenticates(
                request,
                credential_id@,
                seed.prf_salt,
                challenge,
            )
            &&& PrfKeyFlow::is_key(key, output@, seed.prf_salt, credential_id@)
        }))),
        persist ==> {
            &&& saves_bytes(steps[4], KeychainKey::CredentialId, key.credential_id@)
            &&& replies[4] matches Reply::Written(Ok(_))
            &&& saves_bytes(steps[5], KeychainKey::PrfSalt, key.prf_salt@)
            &&& replies[5] matches Reply::Written(Ok(_))
        },
{
    assert(then_reply(steps[0], replies[0], steps[1]));
    assert(then_reply(steps[1], replies[1], steps[2]));
    assert(then_reply(steps[2], replies[2], steps[3]));
    assert(then_reply(steps[3], replies[3], steps[4]));
    if persist {
        assert(then_reply(steps[4], replies[4], steps[5]));
        assert(then_reply(steps[5], replies[5], steps[6]));
    }
    let end: int = if persist {
        6
    } else {
        4
    };
    if end < replies.len() {
        assert(then_reply(steps[end], replies[end], steps[end + 1]));
    }
}

/// A new passkey gives a key wherever the platform creates it, authenticates with it, and the
/// keychain takes it if it is to be stored.
pub proof fn law_new_passkey_gives_a_key(
    persist: bool,
    seed: PasskeySeed,
    credential_id: Vec<u8>,
    challenge: [u8; 32],
    output: Vec<u8>,
    steps: Seq<Attempt<PrfKeyFlow, UnpersistedPrfKey>>,
)
    requires
        output@.len() == 32,
        steps.len() == if persist {
            7int
        } else {
            5
        },
        PrfKeyFlow::began(persist, steps[0]),
        then_reply(steps[0], Reply::Seed(seed), steps[1]),
        then_reply(steps[1], Reply::Passkey(Ok(credential_id)), steps[2]),
        then_reply(steps[2], Reply::Challenge(challenge), steps[3]),
        then_reply(steps[3], Reply::Passkey(Ok(output)), steps[4]),
        persist ==> {
            &&& then_reply(steps[4], Reply::Written(Ok(())), steps[5])
            &&& then_reply(steps[5], Reply::Written(Ok(())), steps[6])
        },
    ensures
        steps.last() matches Progress::Done { value: Ok(key), .. } && PrfKeyFlow::is_key(
            key,
            output@,
            seed.prf_salt,
            credential_id@,
        ),
{
}

/// A credential that was stored is read back unchanged.
pub proof fn law_stored_credential_is_read_back(credential_id: Seq<u8>, stored: String)
    requires
        stored@ == hex_text(credential_id),
    ensures
        stored_credential(Some(stored)) == Some(credential_id),
{
    law_hex_read_back(credential_id);
}

/// The credential that a new passkey left in the keychain is the one that later authentications
/// begin with.
pub proof fn law_authentication_begins_with_the_stored_credential(
    credential_id: Seq<u8>,
    stored: String,
    prf_salt: [u8; 32],
    challenge: [u8; 32],
    steps: Seq<Attempt<AuthenticateFlow, PasskeyAuthOutcome>>,
)
    requires
        stored@ == hex_text(credential_id),
        steps.len() == 3,
        AuthenticateFlow::began(prf_salt, steps[0]),
        steps[0] matches Progress::Ask { flow, .. } && flow.next(
            Reply::Keychain(Some(stored)),
            steps[1],
        ),
        steps[1] matches Progress::Ask { flow, .. } && flow.next(
            Reply::Challenge(challenge),
            steps[2],
        ),
    ensures
        steps[2] matches Progress::Ask { request, .. } && authenticates(
            request,
            credential_id,
            prf_salt,
            challenge,
        ),
{
    law_stored_credential_is_read_back(credential_id, stored);
}

} // verus!
