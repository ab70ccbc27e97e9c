use andromeda_stars::errors::AppError;
use andromeda_stars::forms::{validate_draft, validate_publish, DraftForm, PublishForm};

fn publish(name: &str, catalog: &str, velocity: i32, description: &str) -> PublishForm {
    PublishForm {
        name: name.to_string(),
        catalog_id: catalog.to_string(),
        velocity_kms: velocity,
        description: description.to_string(),
    }
}

#[test]
fn error_messages_and_statuses() {
    let nf = AppError::NotFound("черновик звезды".to_string());
    let va = AppError::Validation("x".to_string());
    let te = AppError::Template("broken".to_string());
    assert_eq!(nf.message(), "Не найдено: черновик звезды");
    assert_eq!(va.message(), "Ошибка параметров: x");
    assert_eq!(te.message(), "Ошибка шаблона: broken");
    assert_eq!(nf.status_code(), 404);
    assert_eq!(va.status_code(), 400);
    assert_eq!(te.status_code(), 500);
}

#[test]
fn draft_needs_a_name() {
    assert_eq!(
        validate_draft(&DraftForm { name: " \t ".to_string() }),
        Err(AppError::Validation("название звезды обязательно".to_string()))
    );
    assert_eq!(validate_draft(&DraftForm { name: " Vega ".to_string() }), Ok(()));
}

#[test]
fn publish_checks_in_order() {
    let distance_error = AppError::Validation("distance".to_string());
    assert_eq!(
        validate_publish(&publish(" ", "M31-1", -1, ""), Err(distance_error.clone())),
        Err(AppError::Validation("название и каталожный ID обязательны".to_string()))
    );
    assert_eq!(
        validate_publish(&publish("Vega", " ", 1, "d"), Ok(())),
        Err(AppError::Validation("название и каталожный ID обязательны".to_string()))
    );
    assert_eq!(
        validate_publish(&publish("Vega", "M31-1", -1, ""), Err(distance_error.clone())),
        Err(distance_error)
    );
    assert_eq!(
        validate_publish(&publish("Vega", "M31-1", -1, ""), Ok(())),
        Err(AppError::Validation("velocity_kms должен быть неотрицательным числом".to_string()))
    );
    assert_eq!(
        validate_publish(&publish("Vega", "M31-1", 0, "  "), Ok(())),
        Err(AppError::Validation("краткое описание обязательно".to_string()))
    );
    assert_eq!(validate_publish(&publish("Vega", "M31-1", 0, "bright"), Ok(())), Ok(()));
}
