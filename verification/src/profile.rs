//! Profile data and its read projections.
//!
//! Profile registration, validation and storage sit outside this
//! library; what lives here is the profile value itself, its
//! completeness rule, and the pure projections into the DTOs that the
//! chat and notification flows hand out.

use vstd::prelude::*;
use vstd::string::StringExecFns;

use crate::error::AppError;

verus! {

#[derive(Debug, Clone, Copy, PartialEq, Eq, Structural)]
pub enum Gender {
    Male,
    Female,
}

#[derive(Debug, Clone, Copy, PartialEq, Eq, Structural)]
pub enum SexualPreference {
    Male,
    Female,
    Both,
}

/// One stored image of a profile; at most one is the main image.
#[derive(Debug, Clone, PartialEq)]
pub struct Image {
    pub key: String,
    pub is_main: bool,
}

/// The outward form of one image.
#[derive(Debug, Clone, PartialEq)]
pub struct ImageDto {
    pub id: String,
    pub is_main: bool,
}

impl ImageDto {
    /// The outward form of `image`.
    pub fn from(image: &Image) -> (r: ImageDto)
        ensures
            r.id == image.key,
            r.is_main == image.is_main,
    {
        ImageDto { id: image.key.clone(), is_main: image.is_main }
    }
}

/// A stored profile document.
#[derive(Debug, Clone, PartialEq)]
pub struct Profile {
    pub key: String,
    pub first_name: String,
    pub last_name: String,
    pub gender: Option<Gender>,
    pub sexual_preference: SexualPreference,
    pub biography: Option<String>,
    pub interests: Vec<String>,
    pub images: Vec<String>,
}

/// A partial profile as submitted from the profile form.
#[derive(Debug, Clone, PartialEq)]
pub struct ProfileFormValues {
    pub first_name: Option<String>,
    pub last_name: Option<String>,
    pub gender: Option<Gender>,
    pub sexual_preference: Option<SexualPreference>,
    pub biography: Option<String>,
    pub interests: Option<Vec<String>>,
}

/// The registration form fields a fresh profile is built from.
#[derive(Debug, Clone, PartialEq)]
pub struct RegisterFormValues {
    pub first_name: String,
    pub last_name: String,
}

impl Profile {
    /// The store document URL for this profile under `db_url`.
    pub fn key_url(&self, db_url: &str) -> (r: String)
        ensures
            r@ == db_url@ + "_api/document/profiles/"@ + self.key@,
    {
        let mut url = db_url.to_owned();
        url.append("_api/document/profiles/");
        url.append(self.key.as_str());
        url
    }

    /// Whether the profile can take part in matching: a gender, a
    /// biography, at least one image and at least one interest.
    pub fn is_complete(&self) -> (r: bool)
        ensures
            r == (self.gender is Some && self.biography is Some && self.images@.len() > 0
                && self.interests@.len() > 0),
    {
        self.gender.is_some() && self.biography.is_some() && !self.images.is_empty()
            && !self.interests.is_empty()
    }

    /// The image rows the store returned for this profile: the last
    /// row carries them; no row at all breaks the profile's invariant.
    pub fn get_images(&self, mut rows: Vec<Vec<Image>>) -> (r: Result<Vec<Image>, AppError>)
        ensures
            match r {
                Ok(images) => rows@.len() > 0 && images == rows@.last(),
                Err(e) => rows@.len() == 0 && e == AppError::Internal,
            },
    {
        match rows.pop() {
            Some(images) => Ok(images),
            None => Err(AppError::Internal),
        }
    }

    /// A fresh profile from the registration form: no gender, no
    /// biography, open preference, nothing uploaded yet.
    pub fn from(values: &RegisterFormValues) -> (r: Profile)
        ensures
            r.key@.len() == 0,
            r.first_name == values.first_name,
            r.last_name == values.last_name,
            r.gender is None,
            r.sexual_preference == SexualPreference::Both,
            r.biography is None,
            r.interests@.len() == 0,
            r.images@.len() == 0,
    {
        Profile {
            key: String::new(),
            first_name: values.first_name.clone(),
            last_name: values.last_name.clone(),
            gender: None,
            sexual_preference: SexualPreference::Both,
            biography: None,
            interests: Vec::new(),
            images: Vec::new(),
        }
    }
}

/// A profile reduced to what a thumbnail needs.
#[derive(Debug, Clone, PartialEq)]
pub struct ProfileSlice {
    pub key: String,
    pub first_name: String,
    pub images: Vec<Image>,
}

/// A compact rendering of a profile: identity, name and main image.
#[derive(Debug, Clone, PartialEq)]
pub struct ProfileThumbnail {
    pub id: String,
    pub first_name: String,
    pub image: ImageDto,
}

impl ProfileThumbnail {
    /// The thumbnail of `pv`, built from its first main image; a slice
    /// without a main image is a violated invariant.
    pub fn try_from(pv: &ProfileSlice) -> (r: Result<ProfileThumbnail, AppError>)
        ensures
            match r {
                Ok(t) => {
                    &&& exists|i: int| 0 <= i < pv.images@.len() && pv.images@[i].is_main
                    &&& t.id == pv.key
                    &&& t.first_name == pv.first_name
                    &&& t.image.is_main
                    &&& exists|i: int|
                        0 <= i < pv.images@.len() && pv.images@[i].is_main && t.image.id
                            == pv.images@[i].key
                },
                Err(e) => {
                    &&& forall|i: int| 0 <= i < pv.images@.len() ==> !pv.images@[i].is_main
                    &&& e == AppError::Internal
                },
            },
    {
        let mut i: usize = 0;
        while i < pv.images.len()
            invariant
                i <= pv.images@.len(),
                forall|j: int| 0 <= j < i ==> !pv.images@[j].is_main,
            decreases pv.images@.len() - i,
        {
            if pv.images[i].is_main {
                return Ok(
                    ProfileThumbnail {
                        id: pv.key.clone(),
                        first_name: pv.first_name.clone(),
                        image: ImageDto::from(&pv.images[i]),
                    },
                );
            }
            i = i + 1;
        }
        Err(AppError::Internal)
    }
}

/// The owner's own view of a profile.
#[derive(Debug, Clone, PartialEq)]
pub struct PrivateProfileDto {
    pub first_name: String,
    pub last_name: String,
    pub gender: Option<Gender>,
    pub sexual_preference: SexualPreference,
    pub biography: Option<String>,
    pub interests: Vec<String>,
    pub fame_rating: usize,
    pub images: Vec<ImageDto>,
    pub likes: Vec<ProfileThumbnail>,
    pub visits: Vec<ProfileThumbnail>,
}

impl PrivateProfileDto {
    /// The bare projection of `profile`; rating, images, likes and
    /// visits are joined in separately by the caller.
    pub fn from(profile: Profile) -> (r: PrivateProfileDto)
        ensures
            r.first_name == profile.first_name,
            r.last_name == profile.last_name,
            r.gender == profile.gender,
            r.sexual_preference == profile.sexual_preference,
            r.biography == profile.biography,
            r.interests == profile.interests,
            r.fame_rating == 0,
            r.images@.len() == 0,
            r.likes@.len() == 0,
            r.visits@.len() == 0,
    {
        PrivateProfileDto {
            first_name: profile.first_name,
            last_name: profile.last_name,
            gender: profile.gender,
            sexual_preference: profile.sexual_preference,
            biography: profile.biography,
            interests: profile.interests,
            fame_rating: 0,
            images: Vec::new(),
            likes: Vec::new(),
            visits: Vec::new(),
        }
    }
}

/// What other users see of a profile.
#[derive(Debug, Clone, PartialEq)]
pub struct PublicProfileDto {
    pub id: String,
    pub first_name: String,
    pub last_name: String,
    pub gender: Option<Gender>,
    pub sexual_preference: SexualPreference,
    pub biography: Option<String>,
    pub interests: Vec<String>,
    pub fame_rating: usize,
    pub images: Vec<ImageDto>,
    pub connected: bool,
    pub liked: bool,
}

impl PublicProfileDto {
    /// The bare projection of `profile`; rating, images and the
    /// viewer-relative flags are joined in separately by the caller.
    pub fn from(profile: Profile) -> (r: PublicProfileDto)
        ensures
            r.id == profile.key,
            r.first_name == profile.first_name,
            r.last_name == profile.last_name,
            r.gender == profile.gender,
            r.sexual_preference == profile.sexual_preference,
            r.biography == profile.biography,
            r.interests == profile.interests,
            r.fame_rating == 0,
            r.images@.len() == 0,
            r.connected == false,
            r.liked == false,
    {
        PublicProfileDto {
            id: profile.key,
            first_name: profile.first_name,
            last_name: profile.last_name,
            gender: profile.gender,
            sexual_preference: profile.sexual_preference,
            biography: profile.biography,
            interests: profile.interests,
            fame_rating: 0,
            images: Vec::new(),
            connected: false,
            liked: false,
        }
    }
}

} // verus!
