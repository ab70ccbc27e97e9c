//! The query strings and forms that requests bring, and their validation.

use vstd::prelude::*;
use crate::errors::{AppError, is_validation};
use crate::text::{trim, trimmed};

verus! {

/// Query of the feed page: `next` asks for the star after the given one.
#[derive(Debug, Clone)]
pub struct FeedQuery {
    pub next: Option<bool>,
}

/// Query of the grid page: an upper bound on the distance, and a page number.
#[derive(Debug, Clone)]
pub struct StarsFilter {
    pub distance_kpc: Option<String>,
    pub page: Option<usize>,
}

/// Form that starts a draft card: its star's name.
#[derive(Debug, Clone)]
pub struct DraftForm {
    pub name: String,
}

/// Form that publishes a draft. The distance it carries is a float and is
/// checked where it is read; its outcome is handed to `validate_publish`.
#[derive(Debug, Clone)]
pub struct PublishForm {
    pub name: String,
    pub catalog_id: String,
    pub velocity_kms: i32,
    pub description: String,
}

/// Whether `s` holds nothing but white space.
pub open spec fn is_blank(s: Seq<char>) -> bool {
    trimmed(s).len() == 0
}

pub open spec fn missing_name_text() -> Seq<char> {
    "название звезды обязательно"@
}

pub open spec fn missing_identity_text() -> Seq<char> {
    "название и каталожный ID обязательны"@
}

pub open spec fn negative_velocity_text() -> Seq<char> {
    "velocity_kms должен быть неотрицательным числом"@
}

pub open spec fn missing_description_text() -> Seq<char> {
    "краткое описание обязательно"@
}

/// Whether `s` holds nothing but white space.
pub fn blank(s: &str) -> (b: bool)
    ensures
        b == is_blank(s@),
{
    let t = trim(s);
    t.as_str().is_empty()
}

/// Refuses a draft whose name is blank.
pub fn validate_draft(form: &DraftForm) -> (r: Result<(), AppError>)
    ensures
        r is Ok <==> !is_blank(form.name@),
        r matches Err(e) ==> is_validation(e, missing_name_text()),
{
    if blank(form.name.as_str()) {
        return Err(AppError::validation("название звезды обязательно"));
    }
    Ok(())
}

/// Checks a publish form: name and catalogue id are not blank, then the
/// distance (whose check, `distance`, is made on the float where it is
/// read), then the velocity is not negative and the description not blank.
pub fn validate_publish(form: &PublishForm, distance: Result<(), AppError>) -> (r: Result<
    (),
    AppError,
>)
    ensures
        r is Ok <==> (!is_blank(form.name@) && !is_blank(form.catalog_id@) && distance is Ok
            && form.velocity_kms >= 0 && !is_blank(form.description@)),
        (is_blank(form.name@) || is_blank(form.catalog_id@)) ==> (r matches Err(e)
            && is_validation(e, missing_identity_text())),
        (!is_blank(form.name@) && !is_blank(form.catalog_id@) && distance is Err) ==> r
            == distance,
        (!is_blank(form.name@) && !is_blank(form.catalog_id@) && distance is Ok
            && form.velocity_kms < 0) ==> (r matches Err(e) && is_validation(
            e,
            negative_velocity_text(),
        )),
        (!is_blank(form.name@) && !is_blank(form.catalog_id@) && distance is Ok
            && form.velocity_kms >= 0 && is_blank(form.description@)) ==> (r matches Err(e)
            && is_validation(e, missing_description_text())),
{
    if blank(form.name.as_str()) || blank(form.catalog_id.as_str()) {
        return Err(AppError::validation("название и каталожный ID обязательны"));
    }
    if distance.is_err() {
        return distance;
    }
    if form.velocity_kms < 0 {
        return Err(AppError::validation("velocity_kms должен быть неотрицательным числом"));
    }
    if blank(form.description.as_str()) {
        return Err(AppError::validation("краткое описание обязательно"));
    }
    Ok(())
}

} // verus!
