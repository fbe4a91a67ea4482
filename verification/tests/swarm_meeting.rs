use darkproto::swarm::{encrypt_message, send_msg, Actor, ShareOutcome, Swarm};

#[test]
fn swarm_nodes_are_numbered() {
    let swarm = Swarm::new(3, 1);
    assert_eq!(swarm.actors.len(), 3);
    for (i, actor) in swarm.actors.iter().enumerate() {
        assert_eq!(actor.id, i);
        assert!(actor.msg_inbox.is_none());
    }
}

#[test]
fn threshold_decryption_needs_more_than_threshold_shares() {
    let mut swarm = Swarm::new(3, 1);
    let pk = swarm.publish_public_key();
    let msg = b"content secret key";
    let ciphertext = encrypt_message(&pk, msg);
    send_msg(swarm.get_actor(0), ciphertext.clone());
    send_msg(swarm.get_actor(1), ciphertext.clone());
    send_msg(swarm.get_actor(2), ciphertext);

    let mut meeting = swarm.start_decryption_meeting();
    assert!(meeting.dec_shares.is_empty());

    assert_eq!(meeting.accept_decryption_share(swarm.get_actor(0)), ShareOutcome::Accepted);
    assert!(swarm.actors[0].msg_inbox.is_none());
    assert_eq!(meeting.dec_shares.len(), 1);
    assert_eq!(meeting.decrypt_message(), Err("Error: NotEnoughShares".to_string()));

    assert_eq!(meeting.accept_decryption_share(swarm.get_actor(1)), ShareOutcome::Accepted);
    assert_eq!(meeting.decrypt_message(), Ok(msg.to_vec()));

    assert_eq!(meeting.accept_decryption_share(swarm.get_actor(2)), ShareOutcome::Accepted);
    assert_eq!(meeting.dec_shares.len(), 3);
    assert_eq!(meeting.decrypt_message(), Ok(msg.to_vec()));
}

#[test]
fn other_ciphertext_is_not_collected() {
    let mut swarm = Swarm::new(2, 0);
    let pk = swarm.publish_public_key();
    let first = encrypt_message(&pk, b"first");
    let second = encrypt_message(&pk, b"second");
    send_msg(swarm.get_actor(0), first.clone());
    send_msg(swarm.get_actor(1), second);
    let mut meeting = swarm.start_decryption_meeting();
    assert_eq!(meeting.accept_decryption_share(swarm.get_actor(0)), ShareOutcome::Accepted);
    assert_eq!(meeting.accept_decryption_share(swarm.get_actor(1)), ShareOutcome::CiphertextMismatch);
    assert_eq!(meeting.dec_shares.len(), 1);
    assert_eq!(meeting.ciphertext, Some(first));
    assert_eq!(meeting.decrypt_message(), Ok(b"first".to_vec()));
}

#[test]
fn threshold_zero_decrypts_with_one_share() {
    let mut swarm = Swarm::new(1, 0);
    let ciphertext = encrypt_message(&swarm.publish_public_key(), b"x");
    send_msg(swarm.get_actor(0), ciphertext);
    let mut meeting = swarm.start_decryption_meeting();
    assert_eq!(meeting.accept_decryption_share(swarm.get_actor(0)), ShareOutcome::Accepted);
    assert_eq!(meeting.decrypt_message(), Ok(b"x".to_vec()));
}

#[test]
fn no_shares_never_decrypt() {
    let swarm = Swarm::new(2, 0);
    let ciphertext = swarm.publish_public_key().encrypt(b"y");
    let meeting = darkproto::swarm::DecryptionMeeting {
        pk_set: swarm.pk_set.clone(),
        ciphertext: Some(ciphertext),
        dec_shares: std::collections::BTreeMap::new(),
    };
    assert_eq!(meeting.decrypt_message(), Err("Error: NotEnoughShares".to_string()));
}

#[test]
fn nodes_hold_the_shares_of_their_index() {
    let swarm = Swarm::new(3, 1);
    assert_eq!(swarm.pk_set.threshold(), 1);
    for (i, actor) in swarm.actors.iter().enumerate() {
        assert_eq!(actor.pk_share, swarm.pk_set.public_key_share(i));
        assert_eq!(actor.sk_share.public_key_share(), actor.pk_share);
    }
}

#[test]
fn share_of_a_foreign_key_is_rejected() {
    let mut swarm = Swarm::new(2, 1);
    let other = Swarm::new(2, 1);
    let ciphertext = swarm.publish_public_key().encrypt(b"z");
    let mut impostor = Actor::new(0, other.actors[0].sk_share.clone(), swarm.actors[0].pk_share);
    send_msg(&mut impostor, ciphertext.clone());
    let mut meeting = swarm.start_decryption_meeting();
    assert_eq!(meeting.accept_decryption_share(&mut impostor), ShareOutcome::InvalidShare);
    assert!(impostor.msg_inbox.is_none());
    assert!(meeting.dec_shares.is_empty());
    assert_eq!(meeting.ciphertext, Some(ciphertext.clone()));
    send_msg(swarm.get_actor(0), ciphertext);
    assert_eq!(meeting.accept_decryption_share(swarm.get_actor(0)), ShareOutcome::Accepted);
    assert_eq!(meeting.decrypt_message(), Err("Error: NotEnoughShares".to_string()));
}

#[test]
fn encrypted_message_is_valid_and_decrypts_with_any_two_of_three() {
    let msg = b"DarkProto content secret key";
    for (a, b) in [(0usize, 1usize), (0, 2), (1, 2)] {
        let mut swarm = Swarm::new(3, 1);
        let ciphertext = encrypt_message(&swarm.publish_public_key(), msg);
        assert!(ciphertext.verify());
        send_msg(swarm.get_actor(a), ciphertext.clone());
        send_msg(swarm.get_actor(b), ciphertext);
        let mut meeting = swarm.start_decryption_meeting();
        assert_eq!(meeting.accept_decryption_share(swarm.get_actor(a)), ShareOutcome::Accepted);
        assert_eq!(meeting.decrypt_message(), Err("Error: NotEnoughShares".to_string()));
        assert_eq!(meeting.accept_decryption_share(swarm.get_actor(b)), ShareOutcome::Accepted);
        assert_eq!(meeting.decrypt_message(), Ok(msg.to_vec()));
    }
}

#[test]
fn empty_message_round_trips() {
    let mut swarm = Swarm::new(1, 0);
    let ciphertext = encrypt_message(&swarm.publish_public_key(), b"");
    send_msg(swarm.get_actor(0), ciphertext);
    let mut meeting = swarm.start_decryption_meeting();
    assert_eq!(meeting.accept_decryption_share(swarm.get_actor(0)), ShareOutcome::Accepted);
    assert_eq!(meeting.decrypt_message(), Ok(Vec::new()));
}
