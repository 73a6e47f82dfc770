use vstd::prelude::*;
use crate::config::Endpoint;
use crate::packets::{Handshake, Hello, login_handshake};

verus! {

/// The account a backend login is made with.
#[derive(Clone, Debug, PartialEq, Eq)]
pub struct AccountInfo {
    pub username: String,
    pub access_token: Option<String>,
    pub uuid: Option<u128>,
}

/// The identity the backend confirms at the end of a login.
#[derive(Clone, Debug, PartialEq, Eq)]
pub struct Profile {
    pub name: String,
    pub uuid: u128,
}

/// The kinds of packet a backend sends during login.
#[derive(Clone, Copy, Debug, PartialEq, Eq, Structural)]
pub enum LoginPacketKind {
    EncryptionRequest,
    Compression,
    GameProfile,
    Disconnect,
    CustomQuery,
}

/// A packet the backend sent during login.
#[derive(Clone, Debug, PartialEq, Eq)]
pub enum LoginReply {
    /// The backend asks for encryption.
    EncryptionRequest { server_id: String, public_key: Vec<u8>, nonce: Vec<u8> },
    /// Packets above this size are compressed from now on.
    Compression(i32),
    /// The login succeeded.
    GameProfile(Profile),
    /// The backend refused the login, with this reason.
    Disconnect(String),
    /// A plugin query.
    CustomQuery,
}

/// Why a backend login failed.
#[derive(Clone, Debug, PartialEq, Eq)]
pub enum JoinServerError {
    /// The backend sent a disconnect with this reason.
    Disconnected(String),
    /// The account has no access token or no UUID.
    InvalidAccount,
    /// The backend sent a packet that the login does not expect here.
    UnexpectedPacket(LoginPacketKind),
}

/// What the session keys of an encrypted login are.
#[derive(Clone, Debug, PartialEq, Eq)]
pub struct SessionKeys {
    pub secret_key: [u8; 16],
    pub encrypted_key: Vec<u8>,
    pub encrypted_nonce: Vec<u8>,
}

/// What the caller must do next in a backend login.
#[derive(Clone, Debug, PartialEq, Eq)]
pub enum JoinAction {
    /// Derive session keys for this request and authenticate with the
    /// session service, then hand the keys back.
    Authenticate { server_id: String, public_key: Vec<u8>, nonce: Vec<u8> },
    /// Send the key response, then encrypt the connection with the secret key.
    SendKey(SessionKeys),
    /// Set the connection's compression threshold.
    SetCompression(i32),
    /// The login is complete: the connection is now in the game phase.
    Joined(Profile),
}

/// Where a backend login stands.
#[derive(Clone, Copy, Debug, PartialEq, Eq, Structural)]
pub enum JoinPhase {
    AwaitEncryptionRequest,
    AwaitSessionKeys,
    AwaitProfile,
    Joined,
    Failed,
}

/// The kind of a backend login packet.
pub open spec fn kind_spec(reply: LoginReply) -> LoginPacketKind {
    match reply {
        LoginReply::EncryptionRequest { .. } => LoginPacketKind::EncryptionRequest,
        LoginReply::Compression(_) => LoginPacketKind::Compression,
        LoginReply::GameProfile(_) => LoginPacketKind::GameProfile,
        LoginReply::Disconnect(_) => LoginPacketKind::Disconnect,
        LoginReply::CustomQuery => LoginPacketKind::CustomQuery,
    }
}

impl LoginReply {
    /// The kind of this packet.
    pub fn kind(&self) -> (r: LoginPacketKind)
        ensures
            r == kind_spec(*self),
    {
        match self {
            LoginReply::EncryptionRequest { .. } => LoginPacketKind::EncryptionRequest,
            LoginReply::Compression(_) => LoginPacketKind::Compression,
            LoginReply::GameProfile(_) => LoginPacketKind::GameProfile,
            LoginReply::Disconnect(_) => LoginPacketKind::Disconnect,
            LoginReply::CustomQuery => LoginPacketKind::CustomQuery,
        }
    }
}

/// The account can authenticate: it has both an access token and a UUID.
pub open spec fn has_credentials(account: AccountInfo) -> bool {
    account.access_token is Some && account.uuid is Some
}

/// One login transition on a packet from the backend.
pub open spec fn reply_spec(p: JoinPhase, reply: LoginReply) -> (
    JoinPhase,
    Result<JoinAction, JoinServerError>,
) {
    match reply {
        LoginReply::Disconnect(reason) => (
            JoinPhase::Failed,
            Err(JoinServerError::Disconnected(reason)),
        ),
        LoginReply::EncryptionRequest { server_id, public_key, nonce } => if p
            == JoinPhase::AwaitEncryptionRequest {
            (JoinPhase::AwaitSessionKeys, Ok(JoinAction::Authenticate { server_id, public_key, nonce }))
        } else {
            (
                JoinPhase::Failed,
                Err(JoinServerError::UnexpectedPacket(LoginPacketKind::EncryptionRequest)),
            )
        },
        LoginReply::Compression(t) => if p == JoinPhase::AwaitProfile {
            (JoinPhase::AwaitProfile, Ok(JoinAction::SetCompression(t)))
        } else {
            (JoinPhase::Failed, Err(JoinServerError::UnexpectedPacket(LoginPacketKind::Compression)))
        },
        LoginReply::GameProfile(profile) => if p == JoinPhase::AwaitProfile {
            (JoinPhase::Joined, Ok(JoinAction::Joined(profile)))
        } else {
            (JoinPhase::Failed, Err(JoinServerError::UnexpectedPacket(LoginPacketKind::GameProfile)))
        },
        LoginReply::CustomQuery => (
            JoinPhase::Failed,
            Err(JoinServerError::UnexpectedPacket(LoginPacketKind::CustomQuery)),
        ),
    }
}

/// The login is still waiting for backend packets in phase `p`.
pub open spec fn takes_replies(p: JoinPhase) -> bool {
    p == JoinPhase::AwaitEncryptionRequest || p == JoinPhase::AwaitProfile
}

/// The phase reached and the outcomes over the backend packets `replies`;
/// packets that arrive once the login stopped taking them are not read.
pub open spec fn join_run(p: JoinPhase, replies: Seq<LoginReply>) -> (
    JoinPhase,
    Seq<Result<JoinAction, JoinServerError>>,
)
    decreases replies.len(),
{
    if replies.len() == 0 || !takes_replies(p) {
        (p, Seq::empty())
    } else {
        let (p1, r) = reply_spec(p, replies[0]);
        let (pn, rest) = join_run(p1, replies.drop_first());
        (pn, seq![r] + rest)
    }
}

/// After the key exchange, any number of compression packets followed by the
/// profile completes the login: each threshold is applied in order, then the
/// profile is reported.
pub proof fn compression_then_profile_joins(thresholds: Seq<i32>, profile: Profile)
    ensures
        join_run(
            JoinPhase::AwaitProfile,
            thresholds.map_values(|t: i32| LoginReply::Compression(t)) + seq![
                LoginReply::GameProfile(profile),
            ],
        ) == (
            JoinPhase::Joined,
            thresholds.map_values(
                |t: i32| Ok::<JoinAction, JoinServerError>(JoinAction::SetCompression(t)),
            ) + seq![Ok::<JoinAction, JoinServerError>(JoinAction::Joined(profile))],
        ),
    decreases thresholds.len(),
{
    let replies = thresholds.map_values(|t: i32| LoginReply::Compression(t)) + seq![
        LoginReply::GameProfile(profile),
    ];
    let outs = thresholds.map_values(
        |t: i32| Ok::<JoinAction, JoinServerError>(JoinAction::SetCompression(t)),
    ) + seq![Ok::<JoinAction, JoinServerError>(JoinAction::Joined(profile))];
    if thresholds.len() == 0 {
        assert(replies =~= seq![LoginReply::GameProfile(profile)]);
        assert(outs =~= seq![Ok::<JoinAction, JoinServerError>(JoinAction::Joined(profile))]);
        assert(replies.drop_first() =~= Seq::<LoginReply>::empty());
        let r = Ok::<JoinAction, JoinServerError>(JoinAction::Joined(profile));
        assert(join_run(JoinPhase::Joined, replies.drop_first()) == (
            JoinPhase::Joined,
            Seq::<Result<JoinAction, JoinServerError>>::empty(),
        ));
        assert(seq![r] + Seq::<Result<JoinAction, JoinServerError>>::empty() =~= seq![r]);
    } else {
        let rest = thresholds.drop_first();
        compression_then_profile_joins(rest, profile);
        let rest_replies = rest.map_values(|t: i32| LoginReply::Compression(t)) + seq![
            LoginReply::GameProfile(profile),
        ];
        let rest_outs = rest.map_values(
            |t: i32| Ok::<JoinAction, JoinServerError>(JoinAction::SetCompression(t)),
        ) + seq![Ok::<JoinAction, JoinServerError>(JoinAction::Joined(profile))];
        assert(replies[0] == LoginReply::Compression(thresholds[0]));
        assert(replies.drop_first() =~= rest_replies);
        assert(outs =~= seq![
            Ok::<JoinAction, JoinServerError>(JoinAction::SetCompression(thresholds[0])),
        ] + rest_outs);
        assert(reply_spec(JoinPhase::AwaitProfile, replies[0]) == (
            JoinPhase::AwaitProfile,
            Ok::<JoinAction, JoinServerError>(JoinAction::SetCompression(thresholds[0])),
        ));
    }
}

/// A login to the backend under an account of its own.
pub struct Joiner {
    pub phase: JoinPhase,
}

impl Joiner {
    /// Begins a login to `addr` as `account`: the handshake and hello to send
    /// once connected, or `InvalidAccount` before anything is sent.
    pub fn start(protocol_version: u32, addr: &Endpoint, account: &AccountInfo) -> (r: Result<
        (Joiner, Handshake, Hello),
        JoinServerError,
    >)
        ensures
            r is Err <==> !has_credentials(*account),
            r is Err ==> r == Err::<(Joiner, Handshake, Hello), JoinServerError>(
                JoinServerError::InvalidAccount,
            ),
            r matches Ok((j, hs, h)) ==> {
                &&& j.phase == JoinPhase::AwaitEncryptionRequest
                &&& hs.protocol_version == protocol_version
                &&& hs.hostname@ == addr.host@
                &&& hs.port == addr.port
                &&& hs.intention == crate::packets::Intention::Login
                &&& h.username@ == account.username@
                &&& h.public_key is None
                &&& h.profile_id is None
            },
    {
        if account.access_token.is_none() || account.uuid.is_none() {
            return Err(JoinServerError::InvalidAccount);
        }
        let hs = login_handshake(protocol_version, &addr.host, addr.port);
        let h = Hello { username: account.username.clone(), public_key: None, profile_id: None };
        Ok((Joiner { phase: JoinPhase::AwaitEncryptionRequest }, hs, h))
    }

    /// True while the login waits for a packet from the backend.
    pub fn expects_reply(&self) -> (r: bool)
        ensures
            r == (self.phase == JoinPhase::AwaitEncryptionRequest || self.phase
                == JoinPhase::AwaitProfile),
    {
        self.phase == JoinPhase::AwaitEncryptionRequest || self.phase == JoinPhase::AwaitProfile
    }

    /// True while the login waits for the session keys.
    pub fn expects_keys(&self) -> (r: bool)
        ensures
            r == (self.phase == JoinPhase::AwaitSessionKeys),
    {
        self.phase == JoinPhase::AwaitSessionKeys
    }

    /// Takes in a packet from the backend and says what to do.
    pub fn on_reply(&mut self, reply: LoginReply) -> (r: Result<JoinAction, JoinServerError>)
        requires
            old(self).phase == JoinPhase::AwaitEncryptionRequest || old(self).phase
                == JoinPhase::AwaitProfile,
        ensures
            (final(self).phase, r) == reply_spec(old(self).phase, reply),
    {
        let awaiting_request = self.phase == JoinPhase::AwaitEncryptionRequest;
        match reply {
            LoginReply::Disconnect(reason) => {
                self.phase = JoinPhase::Failed;
                Err(JoinServerError::Disconnected(reason))
            },
            LoginReply::EncryptionRequest { server_id, public_key, nonce } => {
                if awaiting_request {
                    self.phase = JoinPhase::AwaitSessionKeys;
                    Ok(JoinAction::Authenticate { server_id, public_key, nonce })
                } else {
                    self.phase = JoinPhase::Failed;
                    Err(JoinServerError::UnexpectedPacket(LoginPacketKind::EncryptionRequest))
                }
            },
            LoginReply::Compression(t) => {
                if !awaiting_request {
                    Ok(JoinAction::SetCompression(t))
                } else {
                    self.phase = JoinPhase::Failed;
                    Err(JoinServerError::UnexpectedPacket(LoginPacketKind::Compression))
                }
            },
            LoginReply::GameProfile(profile) => {
                if !awaiting_request {
                    self.phase = JoinPhase::Joined;
                    Ok(JoinAction::Joined(profile))
                } else {
                    self.phase = JoinPhase::Failed;
                    Err(JoinServerError::UnexpectedPacket(LoginPacketKind::GameProfile))
                }
            },
            LoginReply::CustomQuery => {
                self.phase = JoinPhase::Failed;
                Err(JoinServerError::UnexpectedPacket(LoginPacketKind::CustomQuery))
            },
        }
    }

    /// Takes in the session keys once authenticated: send them, then wait
    /// for the profile.
    pub fn on_keys(&mut self, keys: SessionKeys) -> (r: JoinAction)
        requires
            old(self).phase == JoinPhase::AwaitSessionKeys,
        ensures
            final(self).phase == JoinPhase::AwaitProfile,
            r == JoinAction::SendKey(keys),
    {
        self.phase = JoinPhase::AwaitProfile;
        JoinAction::SendKey(keys)
    }
}

} // verus!
