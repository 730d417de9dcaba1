use matcha_chat::error::AppError;
use matcha_chat::keys::decimal_string;
use matcha_chat::profile::Gender;
use matcha_chat::profile::Image;
use matcha_chat::profile::ImageDto;
use matcha_chat::profile::PrivateProfileDto;
use matcha_chat::profile::Profile;
use matcha_chat::profile::ProfileSlice;
use matcha_chat::profile::ProfileThumbnail;
use matcha_chat::profile::PublicProfileDto;
use matcha_chat::profile::RegisterFormValues;
use matcha_chat::profile::SexualPreference;

fn registered() -> Profile {
    Profile::from(&RegisterFormValues {
        first_name: "Bob".to_owned(),
        last_name: "Matthews".to_owned(),
    })
}

fn image(key: &str, is_main: bool) -> Image {
    Image { key: key.to_owned(), is_main }
}

#[test]
fn fresh_profile_is_incomplete() {
    let p = registered();
    assert_eq!(p.first_name, "Bob");
    assert_eq!(p.last_name, "Matthews");
    assert_eq!(p.key, "");
    assert!(matches!(p.sexual_preference, SexualPreference::Both));
    assert!(!p.is_complete());
}

#[test]
fn profile_is_complete_with_all_four_parts() {
    let mut p = registered();
    p.gender = Some(Gender::Male);
    p.biography = Some("hi".to_owned());
    p.images = vec!["i1".to_owned()];
    p.interests = vec!["climbing".to_owned()];
    assert!(p.is_complete());
    p.interests = vec![];
    assert!(!p.is_complete());
}

#[test]
fn profile_key_url_appends_collection_and_key() {
    let mut p = registered();
    p.key = "31".to_owned();
    assert_eq!(
        p.key_url("http://localhost:8529/"),
        "http://localhost:8529/_api/document/profiles/31"
    );
}

#[test]
fn get_images_takes_the_last_row_or_fails() {
    let p = registered();
    let rows = vec![vec![image("a", false)], vec![image("b", true), image("c", false)]];
    let images = p.get_images(rows).unwrap();
    assert_eq!(images.len(), 2);
    assert_eq!(images[0].key, "b");
    assert_eq!(p.get_images(vec![]), Err(AppError::Internal));
}

#[test]
fn thumbnail_needs_a_main_image() {
    let slice = ProfileSlice {
        key: "31".to_owned(),
        first_name: "Bob".to_owned(),
        images: vec![image("a", false), image("b", true)],
    };
    let t = ProfileThumbnail::try_from(&slice).unwrap();
    assert_eq!(t.id, "31");
    assert_eq!(t.first_name, "Bob");
    assert_eq!(t.image.id, "b");
    assert!(t.image.is_main);

    let bare = ProfileSlice {
        key: "31".to_owned(),
        first_name: "Bob".to_owned(),
        images: vec![image("a", false)],
    };
    assert_eq!(ProfileThumbnail::try_from(&bare), Err(AppError::Internal));
}

#[test]
fn image_dto_mirrors_the_image() {
    let dto = ImageDto::from(&image("x", true));
    assert_eq!(dto.id, "x");
    assert!(dto.is_main);
}

#[test]
fn private_dto_carries_the_profile_fields() {
    let mut p = registered();
    p.gender = Some(Gender::Female);
    p.biography = Some("bio".to_owned());
    p.interests = vec!["tea".to_owned()];
    let dto = PrivateProfileDto::from(p);
    assert_eq!(dto.first_name, "Bob");
    assert_eq!(dto.last_name, "Matthews");
    assert!(matches!(dto.gender, Some(Gender::Female)));
    assert_eq!(dto.biography.as_deref(), Some("bio"));
    assert_eq!(dto.interests, vec!["tea".to_owned()]);
    assert_eq!(dto.fame_rating, 0);
    assert!(dto.images.is_empty());
    assert!(dto.likes.is_empty());
    assert!(dto.visits.is_empty());
}

#[test]
fn public_dto_carries_identity_and_defaults() {
    let mut p = registered();
    p.key = "31".to_owned();
    let dto = PublicProfileDto::from(p);
    assert_eq!(dto.id, "31");
    assert_eq!(dto.first_name, "Bob");
    assert_eq!(dto.fame_rating, 0);
    assert!(!dto.connected);
    assert!(!dto.liked);
    assert!(dto.images.is_empty());
}

#[test]
fn store_keys_render_in_decimal() {
    assert_eq!(decimal_string(0), "0");
    assert_eq!(decimal_string(7), "7");
    assert_eq!(decimal_string(10), "10");
    assert_eq!(decimal_string(42), "42");
    assert_eq!(decimal_string(1234567890), "1234567890");
    assert_eq!(decimal_string(u64::MAX), "18446744073709551615");
}
