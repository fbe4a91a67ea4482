//! A swarm of carrier nodes ("actors") that each hold one share of a
//! threshold key, and the decryption meeting at which they pool decryption
//! shares of one ciphertext. Any `threshold + 1` shares decrypt it; fewer do
//! not. The cryptography is that of the `threshold_crypto` crate.

use std::collections::BTreeMap;
use threshold_crypto::{
    Ciphertext, DecryptionShare, PublicKey, PublicKeySet, PublicKeyShare, SecretKeySet,
    SecretKeyShare,
};
use vstd::prelude::*;

verus! {

#[verifier::external_type_specification]
#[verifier::external_body]
pub struct ExPublicKeySet(PublicKeySet);

#[verifier::external_type_specification]
#[verifier::external_body]
pub struct ExSecretKeySet(SecretKeySet);

#[verifier::external_type_specification]
#[verifier::external_body]
pub struct ExSecretKeyShare(SecretKeyShare);

#[verifier::external_type_specification]
#[verifier::external_body]
pub struct ExPublicKeyShare(PublicKeyShare);

#[verifier::external_type_specification]
#[verifier::external_body]
pub struct ExPublicKey(PublicKey);

#[verifier::external_type_specification]
#[verifier::external_body]
pub struct ExCiphertext(Ciphertext);

#[verifier::external_type_specification]
#[verifier::external_body]
pub struct ExDecryptionShare(DecryptionShare);

/// Number of coefficients of the secret polynomial behind a key set: its
/// threshold plus one.
pub uninterp spec fn key_set_len(sk_set: SecretKeySet) -> nat;

/// The public key set of a secret key set (`SecretKeySet::public_keys`).
pub uninterp spec fn public_keys_of(sk_set: SecretKeySet) -> PublicKeySet;

/// Number of coefficients of the commitment behind a public key set: its
/// threshold plus one.
pub uninterp spec fn public_key_set_len(pk_set: PublicKeySet) -> nat;

/// The secret key share of index `id` (`SecretKeySet::secret_key_share`).
pub uninterp spec fn secret_key_share_of(sk_set: SecretKeySet, id: usize) -> SecretKeyShare;

/// The public key share of index `id` (`PublicKeySet::public_key_share`).
pub uninterp spec fn public_key_share_of(pk_set: PublicKeySet, id: usize) -> PublicKeyShare;

/// The master public key of a public key set (`PublicKeySet::public_key`).
pub uninterp spec fn master_key_of(pk_set: PublicKeySet) -> PublicKey;

/// Whether a ciphertext passes its validity test (`Ciphertext::verify`).
pub uninterp spec fn ciphertext_valid(ct: Ciphertext) -> bool;

/// The decryption share that a secret key share makes of a ciphertext
/// (`SecretKeyShare::decrypt_share_no_verify`).
pub uninterp spec fn decryption_share_of(sk_share: SecretKeyShare, ct: Ciphertext) -> DecryptionShare;

/// Whether a decryption share of a ciphertext verifies against a public key
/// share (`PublicKeyShare::verify_decryption_share`).
pub uninterp spec fn share_valid(pk_share: PublicKeyShare, share: DecryptionShare, ct: Ciphertext) -> bool;

/// The bytes that combining the given shares of a ciphertext yields
/// (`PublicKeySet::decrypt` when it succeeds).
pub uninterp spec fn combined_plaintext(
    pk_set: PublicKeySet,
    shares: Map<usize, DecryptionShare>,
    ct: Ciphertext,
) -> Seq<u8>;

/// Every decryption share that a secret key share of `sk_set` makes of a
/// valid ciphertext verifies against the public key share of `pk_set` with
/// the same index.
pub open spec fn shares_verify(sk_set: SecretKeySet, pk_set: PublicKeySet) -> bool {
    forall|i: usize, ct: Ciphertext|
        #![trigger share_valid(
            public_key_share_of(pk_set, i),
            decryption_share_of(secret_key_share_of(sk_set, i), ct),
            ct,
        )]
        ciphertext_valid(ct) ==> share_valid(
            public_key_share_of(pk_set, i),
            decryption_share_of(secret_key_share_of(sk_set, i), ct),
            ct,
        )
}

/// Each share of `shares` is the decryption share of `ct` made by the secret
/// key share of `sk_set` whose index it is filed under.
pub open spec fn shares_dealt_from(
    shares: Map<usize, DecryptionShare>,
    sk_set: SecretKeySet,
    ct: Ciphertext,
) -> bool {
    forall|i: usize| #[trigger] shares.dom().contains(i) ==> shares[i] == decryption_share_of(
        secret_key_share_of(sk_set, i),
        ct,
    )
}

/// `ct` encrypts `msg` under the master key `pk`: for every key set whose
/// master key is `pk`, any `threshold + 1` or more of its decryption shares
/// of `ct`, each filed under the index of the key share that made it,
/// combine to `msg`.
pub open spec fn encrypts(ct: Ciphertext, pk: PublicKey, msg: Seq<u8>) -> bool {
    forall|sk_set: SecretKeySet, shares: Map<usize, DecryptionShare>|
        #![trigger combined_plaintext(public_keys_of(sk_set), shares, ct)]
        {
            &&& master_key_of(public_keys_of(sk_set)) == pk
            &&& key_set_len(sk_set) >= 1
            &&& shares.dom().finite()
            &&& shares.len() >= key_set_len(sk_set)
            &&& shares_dealt_from(shares, sk_set, ct)
        } ==> combined_plaintext(public_keys_of(sk_set), shares, ct) == msg
}

/// Calls `PublicKey::encrypt`, which draws its randomness from the operating
/// system, so which ciphertext comes out is left unstated. Whatever comes
/// out passes the ciphertext validity test, and the decryption shares of it
/// that any `threshold + 1` key shares of a key set with master key `pk`
/// make combine to `msg`.
#[verifier::external_body]
fn public_key_encrypt(pk: &PublicKey, msg: &[u8]) -> (ct: Ciphertext)
    ensures
        ciphertext_valid(ct),
        encrypts(ct, *pk, msg@),
{
    pk.encrypt(msg)
}

/// Calls `SecretKeySet::random` with the thread's random number generator:
/// a fresh random polynomial with `threshold + 1` coefficients, so that any
/// `threshold + 1` shares can decrypt together. Which keys come out is
/// random and left unstated. The threshold `usize::MAX` makes the crate
/// panic, so it is ruled out.
#[verifier::external_body]
fn random_secret_key_set(threshold: usize) -> (keys: SecretKeySet)
    requires
        threshold < usize::MAX,
    ensures
        key_set_len(keys) == threshold + 1,
{
    SecretKeySet::random(threshold, &mut rand::thread_rng())
}

/// Calls `SecretKeySet::public_keys`: the commitment to the secret
/// polynomial, with one coefficient per coefficient of the polynomial. The
/// public key share of index `i` is the `i`-th secret key share times the
/// group generator, so the decryption shares that the secret key shares
/// make of a valid ciphertext verify against the public key shares.
#[verifier::external_body]
fn public_keys(sk_set: &SecretKeySet) -> (pk_set: PublicKeySet)
    ensures
        pk_set == public_keys_of(*sk_set),
        public_key_set_len(pk_set) == key_set_len(*sk_set),
        shares_verify(*sk_set, pk_set),
{
    sk_set.public_keys()
}

/// Calls `SecretKeySet::secret_key_share`: the secret key share of the node
/// with index `id`.
#[verifier::external_body]
fn secret_key_share(sk_set: &SecretKeySet, id: usize) -> (share: SecretKeyShare)
    ensures
        share == secret_key_share_of(*sk_set, id),
{
    sk_set.secret_key_share(id)
}

/// Calls `PublicKeySet::public_key_share`: the public key share of the node
/// with index `id`.
#[verifier::external_body]
fn public_key_share(pk_set: &PublicKeySet, id: usize) -> (share: PublicKeyShare)
    ensures
        share == public_key_share_of(*pk_set, id),
{
    pk_set.public_key_share(id)
}

/// Calls `PublicKeySet::public_key`: the first coefficient of the
/// commitment, which the crate reads without a test, so an empty commitment
/// is ruled out.
#[verifier::external_body]
fn master_public_key(pk_set: &PublicKeySet) -> (pk: PublicKey)
    requires
        public_key_set_len(*pk_set) >= 1,
    ensures
        pk == master_key_of(*pk_set),
{
    pk_set.public_key()
}

/// Calls the derived `Clone` of `PublicKeySet`, which copies every field.
#[verifier::external_body]
fn clone_public_key_set(pk_set: &PublicKeySet) -> (copy: PublicKeySet)
    ensures
        copy == *pk_set,
{
    pk_set.clone()
}

/// Calls the derived `Clone` of `Ciphertext`, which copies every field.
#[verifier::external_body]
fn clone_ciphertext(ct: &Ciphertext) -> (copy: Ciphertext)
    ensures
        copy == *ct,
{
    ct.clone()
}

/// Calls the derived `PartialEq` of `Ciphertext`, which compares the two
/// group elements and the masked bytes that make a ciphertext.
#[verifier::external_body]
fn ciphertext_eq(a: &Ciphertext, b: &Ciphertext) -> (eq: bool)
    ensures
        eq == (*a == *b),
{
    a == b
}

/// Calls `SecretKeyShare::decrypt_share`: `None` where the ciphertext fails
/// its validity test, else the share that `decrypt_share_no_verify` makes.
#[verifier::external_body]
fn decrypt_share(sk_share: &SecretKeyShare, ct: &Ciphertext) -> (share: Option<DecryptionShare>)
    ensures
        share == (if ciphertext_valid(*ct) {
            Some(decryption_share_of(*sk_share, *ct))
        } else {
            None
        }),
{
    sk_share.decrypt_share(ct)
}

/// Calls `PublicKeyShare::verify_decryption_share`.
#[verifier::external_body]
fn verify_decryption_share(
    pk_share: &PublicKeyShare,
    share: &DecryptionShare,
    ct: &Ciphertext,
) -> (valid: bool)
    ensures
        valid == share_valid(*pk_share, *share, *ct),
{
    pk_share.verify_decryption_share(share, ct)
}

/// Calls `PublicKeySet::decrypt` on the collected shares, each with the
/// index of the node that made it, and renders its error with `Debug`. The
/// crate takes the first `threshold + 1` shares and fails with
/// `NotEnoughShares` when there are fewer; its only other error,
/// `DuplicateEntry`, needs two shares with one index, which a map cannot
/// hold. An empty commitment makes the crate's threshold computation
/// overflow, so it is ruled out.
#[verifier::external_body]
fn combine_decryption_shares(
    pk_set: &PublicKeySet,
    shares: &BTreeMap<usize, DecryptionShare>,
    ct: &Ciphertext,
) -> (res: Result<Vec<u8>, String>)
    requires
        public_key_set_len(*pk_set) >= 1,
    ensures
        res is Ok <==> shares@.len() >= public_key_set_len(*pk_set),
        res matches Ok(m) ==> m@ == combined_plaintext(*pk_set, shares@, *ct),
        res matches Err(e) ==> e@ == "NotEnoughShares"@,
{
    pk_set.decrypt(shares, ct).map_err(|err| format!("{:?}", err))
}

/// Encrypts a message under a master public key. The ciphertext is random;
/// it is valid, and any `threshold + 1` decryption shares of it made by the
/// key set behind `pk` combine to `msg`.
pub fn encrypt_message(pk: &PublicKey, msg: &[u8]) -> (ct: Ciphertext)
    ensures
        ciphertext_valid(ct),
        encrypts(ct, *pk, msg@),
{
    public_key_encrypt(pk, msg)
}

/// A member of the swarm: a node that carries one secret and one public key
/// share, and an inbox for the ciphertext it is sent.
pub struct Actor {
    pub id: usize,
    pub sk_share: SecretKeyShare,
    pub pk_share: PublicKeyShare,
    pub msg_inbox: Option<Ciphertext>,
}

impl Actor {
    /// A node with an empty inbox.
    pub fn new(id: usize, sk_share: SecretKeyShare, pk_share: PublicKeyShare) -> (actor: Actor)
        ensures
            actor.id == id,
            actor.sk_share == sk_share,
            actor.pk_share == pk_share,
            actor.msg_inbox is None,
    {
        Actor { id, sk_share, pk_share, msg_inbox: None }
    }
}

/// Sends an encrypted message to a node: it lands in the node's inbox,
/// replacing what was there.
pub fn send_msg(actor: &mut Actor, enc_msg: Ciphertext)
    ensures
        final(actor).msg_inbox == Some(enc_msg),
        final(actor).id == old(actor).id,
        final(actor).sk_share == old(actor).sk_share,
        final(actor).pk_share == old(actor).pk_share,
{
    actor.msg_inbox = Some(enc_msg);
}

/// The swarm: its nodes, and the public key set shared among them.
pub struct Swarm {
    pub actors: Vec<Actor>,
    pub pk_set: PublicKeySet,
}

/// Node `i` of `actors` has the index `i`, an empty inbox, the `i`-th
/// secret key share of `sk_set` and the `i`-th public key share of `pk_set`.
pub open spec fn dealt_from(actors: Seq<Actor>, sk_set: SecretKeySet, pk_set: PublicKeySet) -> bool {
    forall|i: int|
        0 <= i < actors.len() ==> {
            &&& (#[trigger] actors[i]).id == i
            &&& actors[i].msg_inbox is None
            &&& actors[i].sk_share == secret_key_share_of(sk_set, i as usize)
            &&& actors[i].pk_share == public_key_share_of(pk_set, i as usize)
        }
}

impl Swarm {
    /// A swarm of `actors_num` nodes with fresh random keys, any
    /// `threshold + 1` of which can decrypt together. Node `i` has the index
    /// `i` and holds the `i`-th key shares, and the decryption shares that
    /// its secret key share makes of a valid ciphertext verify against its
    /// public key share.
    pub fn new(actors_num: usize, threshold: usize) -> (swarm: Swarm)
        requires
            threshold < usize::MAX,
        ensures
            swarm.actors@.len() == actors_num,
            public_key_set_len(swarm.pk_set) == threshold + 1,
            exists|sk_set: SecretKeySet|
                #![trigger dealt_from(swarm.actors@, sk_set, swarm.pk_set)]
                {
                    &&& key_set_len(sk_set) == threshold + 1
                    &&& swarm.pk_set == public_keys_of(sk_set)
                    &&& shares_verify(sk_set, swarm.pk_set)
                    &&& dealt_from(swarm.actors@, sk_set, swarm.pk_set)
                },
    {
        let sk_set = random_secret_key_set(threshold);
        let pk_set = public_keys(&sk_set);
        let mut actors: Vec<Actor> = Vec::new();
        let mut id: usize = 0;
        while id < actors_num
            invariant
                id <= actors_num,
                actors@.len() == id,
                dealt_from(actors@, sk_set, pk_set),
            decreases actors_num - id,
        {
            let sk_share = secret_key_share(&sk_set, id);
            let pk_share = public_key_share(&pk_set, id);
            actors.push(Actor::new(id, sk_share, pk_share));
            id = id + 1;
        }
        let swarm = Swarm { actors, pk_set };
        assert(dealt_from(swarm.actors@, sk_set, swarm.pk_set));
        swarm
    }

    /// The master public key of the swarm. A key set with an empty
    /// commitment has none, and is ruled out.
    pub fn publish_public_key(&self) -> (pk: PublicKey)
        requires
            public_key_set_len(self.pk_set) >= 1,
        ensures
            pk == master_key_of(self.pk_set),
    {
        master_public_key(&self.pk_set)
    }

    /// The node with the index `id`.
    pub fn get_actor(&mut self, id: usize) -> (actor: &mut Actor)
        requires
            id < old(self).actors@.len(),
        ensures
            *actor == old(self).actors@[id as int],
            final(self).actors@ == old(self).actors@.update(id as int, *final(actor)),
            final(self).pk_set == old(self).pk_set,
    {
        &mut self.actors[id]
    }

    /// Starts a decryption meeting of the swarm: no ciphertext yet and no
    /// shares.
    pub fn start_decryption_meeting(&self) -> (meeting: DecryptionMeeting)
        ensures
            meeting.pk_set == self.pk_set,
            meeting.ciphertext is None,
            meeting.dec_shares@ == Map::<usize, DecryptionShare>::empty(),
    {
        DecryptionMeeting {
            pk_set: clone_public_key_set(&self.pk_set),
            ciphertext: None,
            dec_shares: BTreeMap::new(),
        }
    }
}

/// What became of a node's contribution to a decryption meeting.
#[derive(Debug, Clone, Copy, PartialEq, Eq)]
pub enum ShareOutcome {
    /// The node's decryption share was checked and collected.
    Accepted,
    /// The node had received another ciphertext than the meeting's; nothing
    /// was collected.
    CiphertextMismatch,
    /// The ciphertext is not valid, so no decryption share can be made.
    InvalidCiphertext,
    /// The node's decryption share did not verify against its public key
    /// share.
    InvalidShare,
}

/// A meeting at which nodes pool their decryption shares of one ciphertext,
/// each share filed under the index of the node that made it.
pub struct DecryptionMeeting {
    pub pk_set: PublicKeySet,
    pub ciphertext: Option<Ciphertext>,
    pub dec_shares: BTreeMap<usize, DecryptionShare>,
}

impl DecryptionMeeting {
    /// A node contributes the decryption share of the ciphertext in its
    /// inbox, which it hands over. The first node to arrive sets the
    /// meeting's ciphertext; a node that holds another ciphertext contributes
    /// nothing.
    pub fn accept_decryption_share(&mut self, actor: &mut Actor) -> (outcome: ShareOutcome)
        requires
            old(actor).msg_inbox is Some,
        ensures
            final(actor).msg_inbox is None,
            final(actor).id == old(actor).id,
            final(actor).sk_share == old(actor).sk_share,
            final(actor).pk_share == old(actor).pk_share,
            final(self).pk_set == old(self).pk_set,
            old(self).ciphertext is Some ==> final(self).ciphertext == old(self).ciphertext,
            old(self).dec_shares@.dom().subset_of(final(self).dec_shares@.dom()),
            ({
                let ct = old(actor).msg_inbox->0;
                let share = decryption_share_of(old(actor).sk_share, ct);
                if old(self).ciphertext is Some && old(self).ciphertext->0 != ct {
                    &&& outcome == ShareOutcome::CiphertextMismatch
                    &&& final(self).ciphertext == old(self).ciphertext
                    &&& final(self).dec_shares@ == old(self).dec_shares@
                } else if !ciphertext_valid(ct) {
                    &&& outcome == ShareOutcome::InvalidCiphertext
                    &&& final(self).ciphertext == Some(ct)
                    &&& final(self).dec_shares@ == old(self).dec_shares@
                } else if !share_valid(old(actor).pk_share, share, ct) {
                    &&& outcome == ShareOutcome::InvalidShare
                    &&& final(self).ciphertext == Some(ct)
                    &&& final(self).dec_shares@ == old(self).dec_shares@
                } else {
                    &&& outcome == ShareOutcome::Accepted
                    &&& final(self).ciphertext == Some(ct)
                    &&& final(self).dec_shares@ == old(self).dec_shares@.insert(old(actor).id, share)
                }
            }),
    {
        let ciphertext = actor.msg_inbox.take().unwrap();
        match &self.ciphertext {
            Some(meeting_ciphertext) => {
                if !ciphertext_eq(&ciphertext, meeting_ciphertext) {
                    return ShareOutcome::CiphertextMismatch;
                }
            },
            None => {
                self.ciphertext = Some(clone_ciphertext(&ciphertext));
            },
        }
        let dec_share = match decrypt_share(&actor.sk_share, &ciphertext) {
            Some(share) => share,
            None => {
                return ShareOutcome::InvalidCiphertext;
            },
        };
        if !verify_decryption_share(&actor.pk_share, &dec_share, &ciphertext) {
            return ShareOutcome::InvalidShare;
        }
        self.dec_shares.insert(actor.id, dec_share);
        ShareOutcome::Accepted
    }

    /// Combines the collected shares to decrypt the meeting's ciphertext.
    /// It succeeds exactly when more shares than the threshold have been
    /// collected; otherwise the error is "Error: NotEnoughShares".
    pub fn decrypt_message(&self) -> (res: Result<Vec<u8>, String>)
        requires
            self.ciphertext is Some,
            public_key_set_len(self.pk_set) >= 1,
        ensures
            res is Ok <==> self.dec_shares@.len() >= public_key_set_len(self.pk_set),
            res matches Ok(m) ==> m@ == combined_plaintext(
                self.pk_set,
                self.dec_shares@,
                self.ciphertext->0,
            ),
            res matches Err(e) ==> e@ == "Error: NotEnoughShares"@,
    {
        let ciphertext = match &self.ciphertext {
            Some(ct) => clone_ciphertext(ct),
            None => vstd::pervasive::unreached(),
        };
        match combine_decryption_shares(&self.pk_set, &self.dec_shares, &ciphertext) {
            Ok(m) => Ok(m),
            Err(e) => {
                let mut msg = String::from_str("Error: ");
                msg.append(e.as_str());
                proof {
                    reveal_strlit("Error: ");
                    reveal_strlit("NotEnoughShares");
                    reveal_strlit("Error: NotEnoughShares");
                    assert(msg@ =~= "Error: NotEnoughShares"@);
                }
                Err(msg)
            },
        }
    }
}

/// The threshold law of a meeting: with a key set made for `threshold`,
/// `decrypt_message` succeeds exactly when more than `threshold` shares have
/// been collected.
pub proof fn lemma_threshold_decryption(meeting: DecryptionMeeting, threshold: nat)
    requires
        public_key_set_len(meeting.pk_set) == threshold + 1,
    ensures
        meeting.dec_shares@.len() >= public_key_set_len(meeting.pk_set) <==> meeting.dec_shares@.len()
            > threshold,
{
}

/// Decryption gives back what was encrypted: when the meeting's key set is
/// that of `sk_set`, its ciphertext encrypts `msg` under the master key, and
/// it holds at least `threshold + 1` shares, each made by the key share of
/// `sk_set` with the index it is filed under, the shares combine to `msg`,
/// which is then what `decrypt_message` returns.
pub proof fn lemma_meeting_recovers_message(
    meeting: DecryptionMeeting,
    sk_set: SecretKeySet,
    msg: Seq<u8>,
)
    requires
        key_set_len(sk_set) >= 1,
        meeting.pk_set == public_keys_of(sk_set),
        meeting.ciphertext is Some,
        encrypts(meeting.ciphertext->0, master_key_of(meeting.pk_set), msg),
        shares_dealt_from(meeting.dec_shares@, sk_set, meeting.ciphertext->0),
        meeting.dec_shares@.len() >= key_set_len(sk_set),
    ensures
        combined_plaintext(meeting.pk_set, meeting.dec_shares@, meeting.ciphertext->0) == msg,
{
    assert(meeting.dec_shares@.dom().finite());
}

/// A meeting that accepts the share of a node whose secret key share is
/// the one of `sk_set` with the node's index keeps every collected share a
/// share dealt from `sk_set`.
pub proof fn lemma_accepting_keeps_shares_dealt(
    shares: Map<usize, DecryptionShare>,
    sk_set: SecretKeySet,
    ct: Ciphertext,
    id: usize,
)
    requires
        shares_dealt_from(shares, sk_set, ct),
    ensures
        shares_dealt_from(
            shares.insert(id, decryption_share_of(secret_key_share_of(sk_set, id), ct)),
            sk_set,
            ct,
        ),
{
}

} // verus!
