use base64::Engine;
use iota::communities::community::{community_from_files, Community};
use iota::communities::community_connection::{
    challenge_verdict, check_challenge_response, seal_challenge, ChallengeCheck, ChallengeOutcome, ConnectionAuth,
};
use iota::users::user_manager::{key_hash_valid, user_profile_from};
use iota::users::user_profile::UserProfile;
use sha2::Digest;

fn b64(bytes: &[u8]) -> String {
    base64::engine::general_purpose::STANDARD.encode(bytes)
}

fn user_public_b64(seed: u8) -> String {
    let (profile, _) = user_profile_from(3, "ann".to_string(), &[seed; 56], &[1u8; 4], 10);
    profile.public_key
}

fn community() -> Community {
    Community::with_key("club".to_string(), 7, &[9u8; 56])
}

#[test]
fn community_keys_are_x448_pairs() {
    let c = community();
    let mut clamped = [9u8; 56];
    clamped[0] &= 252;
    clamped[55] |= 128;
    assert_eq!(c.get_private_key(), clamped.to_vec());
    let secret = x448::Secret::from_bytes(&clamped).unwrap();
    assert_eq!(c.get_public_key().as_slice(), x448::PublicKey::from(&secret).as_bytes());
}

#[test]
fn community_config_json_text() {
    let c = community();
    let text = c.config_text();
    let parsed = json::parse(&text).unwrap();
    assert_eq!(parsed["name"].as_str(), Some("club"));
    assert_eq!(parsed["owner_id"].as_str(), Some("00000000-0000-0000-0000-000000000007"));
    assert_eq!(parsed["private_key"].as_str().unwrap(), b64(&c.get_private_key()));
    assert_eq!(parsed["public_key"].as_str().unwrap(), b64(c.get_public_key()));
}

#[test]
fn sealed_challenge_opens_to_itself() {
    let c = community();
    let user = user_public_b64(5);
    let nonce = [4u8; 12];
    let (public, sealed) =
        seal_challenge(&user, &c.get_private_key(), c.get_public_key(), "abcDEF123", &nonce).unwrap();
    assert_eq!(public, b64(c.get_public_key()));
    let bytes = base64::engine::general_purpose::STANDARD.decode(&sealed).unwrap();
    assert_eq!(&bytes[..12], &nonce);
    assert_eq!(bytes.len(), 12 + 9 + 16);
    let secret = c.get_private_key();
    assert_eq!(check_challenge_response(&sealed, &user, &secret, "abcDEF123"), ChallengeCheck::Matches);
    assert_eq!(check_challenge_response(&sealed, &user, &secret, "abcDEF124"), ChallengeCheck::Mismatch);
}

#[test]
fn unreadable_answers_are_invalid() {
    let c = community();
    let user = user_public_b64(5);
    let secret = c.get_private_key();
    assert_eq!(check_challenge_response("not base64!", &user, &secret, "x"), ChallengeCheck::Invalid);
    assert_eq!(check_challenge_response(&b64(&[1u8; 11]), &user, &secret, "x"), ChallengeCheck::Invalid);
    assert_eq!(check_challenge_response(&b64(&[1u8; 40]), &user, &secret, "x"), ChallengeCheck::Invalid);
    assert_eq!(check_challenge_response(&b64(&[1u8; 40]), &b64(&[0u8; 56]), &secret, "x"), ChallengeCheck::Invalid);
    assert_eq!(check_challenge_response(&b64(&[1u8; 40]), &b64(&[0u8; 3]), &secret, "x"), ChallengeCheck::Invalid);
    assert!(seal_challenge(&b64(&[0u8; 56]), &secret, c.get_public_key(), "x", &[0u8; 12]).is_none());
    assert!(seal_challenge("%%", &secret, c.get_public_key(), "x", &[0u8; 12]).is_none());
}

#[test]
fn verdict_on_opened_bytes() {
    assert_eq!(challenge_verdict(None, "a"), ChallengeCheck::Invalid);
    assert_eq!(challenge_verdict(Some(vec![0xff, 0xfe]), "a"), ChallengeCheck::Invalid);
    assert_eq!(challenge_verdict(Some(b"abc".to_vec()), "abc"), ChallengeCheck::Matches);
    assert_eq!(challenge_verdict(Some(b"abd".to_vec()), "abc"), ChallengeCheck::Mismatch);
}

#[test]
fn identification_then_challenge_response() {
    let c = community();
    let user = user_public_b64(5);
    let secret = c.get_private_key();
    let mut auth = ConnectionAuth::new();
    assert!(auth.handle_identification(3, None, Some((secret.as_slice(), c.get_public_key().as_slice()))).is_none());
    assert!(!auth.is_identified());
    let offer = auth.handle_identification(3, Some(user.as_str()), Some((secret.as_slice(), c.get_public_key().as_slice()))).unwrap();
    assert_eq!(auth.get_user_id(), 3);
    assert_eq!(offer.0, b64(c.get_public_key()));
    assert_eq!(
        auth.handle_challenge_response(Some("AAAA"), Some(user.as_str()), Some(secret.as_slice())),
        ChallengeOutcome::Invalid
    );
    assert_eq!(auth.handle_challenge_response(None, Some(user.as_str()), Some(secret.as_slice())), ChallengeOutcome::Invalid);
    assert!(!auth.is_identified());
    assert_eq!(
        auth.handle_challenge_response(Some(offer.1.as_str()), Some(user.as_str()), Some(secret.as_slice())),
        ChallengeOutcome::Accepted
    );
    assert!(auth.is_identified());
}

#[test]
fn identification_without_community_fails_but_claims_user() {
    let mut auth = ConnectionAuth::new();
    assert!(auth.handle_identification(8, Some(user_public_b64(2).as_str()), None).is_none());
    assert_eq!(auth.get_user_id(), 8);
}

#[test]
fn user_profile_from_drawn_bytes() {
    let (profile, private_text) = user_profile_from(42, "bob".to_string(), &[3u8; 56], &[7u8; 192], 1000);
    let mut clamped = [3u8; 56];
    clamped[0] &= 252;
    clamped[55] |= 128;
    assert_eq!(private_text, b64(&clamped));
    let secret = x448::Secret::from_bytes(&clamped).unwrap();
    assert_eq!(profile.public_key, b64(x448::PublicKey::from(&secret).as_bytes()));
    assert_eq!(profile.private_key_hash, hex::encode(sha2::Sha256::digest(private_text.as_bytes())));
    assert_eq!(profile.reset_token, b64(&[7u8; 192]));
    assert_eq!(profile.created_at, 1000);
    assert_eq!(profile.user_id, 42);
    assert_eq!(profile.display_name, None);
}

#[test]
fn new_user_profiles_differ() {
    let (a, ka) = iota::users::user_manager::new_user_profile(1, "a".to_string());
    let (b, kb) = iota::users::user_manager::new_user_profile(1, "a".to_string());
    assert_ne!(ka, kb);
    assert_ne!(a.reset_token, b.reset_token);
    assert_eq!(a.private_key_hash.len(), 64);
}

#[test]
fn randomized_reset_token() {
    let mut p = UserProfile::new_at(1, "a".to_string(), None, "k".to_string(), "h".to_string(), "t".to_string(), 5);
    let token = p.randomize_reset_token();
    assert_eq!(token.len(), 256);
    assert_eq!(p.reset_token, token);
    assert_eq!(base64::engine::general_purpose::STANDARD.decode(&token).unwrap().len(), 192);
    assert_eq!(p.public_key, "k");
}

#[test]
fn community_read_from_its_files() {
    let c = community();
    let config = c.config_text();
    let users = r#"{"00000000-0000-0000-0000-000000000001":{"permissions":[]},"00000000-0000-0000-0000-000000000002":{}}"#;
    let back = community_from_files(&config, users, "{}").unwrap();
    assert_eq!(back.get_name(), "club");
    assert_eq!(back.get_members(), &vec![1u128, 2]);
    assert_eq!(back.get_private_key(), c.get_private_key());
    assert_eq!(back.get_public_key(), c.get_public_key());
    assert!(community_from_files(&config, users, "not json").is_none());
    assert!(community_from_files(&config, r#"{"bad":{}}"#, "{}").is_none());
    assert!(community_from_files("{}", users, "{}").is_none());
    assert_eq!(community_from_files(&config, "[1,2]", "[]").unwrap().get_members().len(), 0);
}

#[test]
fn hashes_of_hosted_users() {
    let (a, _) = user_profile_from(1, "a".to_string(), &[3u8; 56], &[7u8; 4], 0);
    let (b, _) = user_profile_from(2, "b".to_string(), &[4u8; 56], &[7u8; 4], 0);
    let hash_b = b.private_key_hash.clone();
    let users = vec![a, b];
    assert!(key_hash_valid(&users, 2, &hash_b));
    assert!(!key_hash_valid(&users, 1, &hash_b));
    assert!(!key_hash_valid(&users, 3, &hash_b));
}
