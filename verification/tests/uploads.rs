use xeta::auth::AuthUser;
use xeta::reply::{Rejection, Status};
use xeta::uploads::{
    extension, is_allowed, upload_image, FieldHead, FieldStep, UploadReading, UploadWriting,
    MAX_IMAGE_SIZE,
};

fn refused<T>(result: Result<T, Rejection>) -> (Status, String) {
    match result {
        Ok(_) => panic!("the request was not refused"),
        Err(rejection) => (rejection.status, rejection.error),
    }
}

fn alice() -> AuthUser {
    AuthUser { id: 7, username: "alice".to_string() }
}

fn field(name: Option<&str>, content_type: Option<&str>) -> FieldHead {
    FieldHead { name: name.map(str::to_string), content_type: content_type.map(str::to_string) }
}

fn reading(content_type: &str) -> UploadReading {
    match upload_image(&alice(), Ok(Some(field(Some("file"), Some(content_type))))) {
        Ok(FieldStep::Read(reading)) => reading,
        _ => panic!("the file was not taken"),
    }
}

fn writing(content_type: &str) -> UploadWriting {
    reading(content_type).resume_as(Ok(vec![1, 2, 3]), 0xab).unwrap()
}

#[test]
fn other_fields_are_skipped() {
    for name in [None, Some(""), Some("File"), Some("files")] {
        assert!(matches!(
            upload_image(&alice(), Ok(Some(field(name, Some("image/png"))))),
            Ok(FieldStep::Skip)
        ));
    }
}

#[test]
fn body_without_file_is_a_bad_request() {
    assert_eq!(
        refused(upload_image(&alice(), Ok(None))),
        (Status::BadRequest, "No file field in request".to_string())
    );
    assert_eq!(
        refused(upload_image(&alice(), Err("boom".to_string()))),
        (Status::BadRequest, "boom".to_string())
    );
}

#[test]
fn only_images_are_allowed() {
    let other = (
        Status::UnsupportedMediaType,
        "Only JPEG, PNG, GIF, and WebP images are allowed".to_string(),
    );
    for content_type in [None, Some("text/html"), Some("image/svg+xml"), Some("IMAGE/PNG")] {
        assert_eq!(refused(upload_image(&alice(), Ok(Some(field(Some("file"), content_type))))), other);
    }
}

#[test]
fn endings_follow_the_content_type() {
    for (content_type, ending) in [
        ("image/jpeg", "jpg"),
        ("image/png", "png"),
        ("image/gif", "gif"),
        ("image/webp", "webp"),
        ("text/html", "bin"),
    ] {
        assert_eq!(extension(&content_type.to_string()), ending);
        assert_eq!(is_allowed(&content_type.to_string()), ending != "bin");
    }
}

#[test]
fn large_images_are_refused() {
    assert_eq!(MAX_IMAGE_SIZE, 10_485_760);
    assert!(reading("image/png").resume_as(Ok(vec![0; MAX_IMAGE_SIZE]), 1).is_ok());
    assert_eq!(
        refused(reading("image/png").resume_as(Ok(vec![0; MAX_IMAGE_SIZE + 1]), 1)),
        (Status::PayloadTooLarge, "Image must be under 10 MB".to_string())
    );
    assert_eq!(
        refused(reading("image/png").resume(Err("boom".to_string()))),
        (Status::BadRequest, "boom".to_string())
    );
}

#[test]
fn stored_name_is_the_number_and_the_ending() {
    let file = writing("image/webp");
    assert_eq!(file.name(), "00000000-0000-0000-0000-0000000000ab.webp");
    assert_eq!(file.data(), &vec![1, 2, 3]);
    let id = 0x0123_4567_89ab_cdef_fedc_ba98_7654_3210;
    let file = reading("image/jpeg").resume_as(Ok(Vec::new()), id).unwrap();
    assert_eq!(file.name(), "01234567-89ab-cdef-fedc-ba9876543210.jpg");
}

#[test]
fn random_names_differ() {
    let stored = || reading("image/png").resume(Ok(vec![1])).unwrap();
    let (one, other) = (stored(), stored());
    assert_ne!(one.name(), other.name());
    for file in [one, other] {
        let id = uuid::Uuid::parse_str(file.name().strip_suffix(".png").unwrap()).unwrap();
        assert_eq!(id.get_version_num(), 4);
        assert_eq!(file.name(), format!("{}.png", id));
    }
}

#[test]
fn names_do_not_collide_across_kinds() {
    let mut names: Vec<String> = ["image/jpeg", "image/png", "image/gif", "image/webp"]
        .iter()
        .map(|content_type| writing(content_type).name().to_string())
        .collect();
    assert!(names.iter().all(|name| !name.contains('/') && !name.contains('\\')));
    names.dedup();
    assert_eq!(names.len(), 4);
}

#[test]
fn first_file_decides() {
    let parts = [
        field(Some("caption"), None),
        field(Some("file"), Some("image/gif")),
        field(Some("file"), Some("text/html")),
    ];
    let mut taken = None;
    for part in parts {
        match upload_image(&alice(), Ok(Some(part))) {
            Ok(FieldStep::Skip) => continue,
            Ok(FieldStep::Read(reading)) => {
                taken = Some(reading);
                break;
            }
            Err(_) => panic!("the upload was refused"),
        }
    }
    let file = taken.unwrap().resume_as(Ok(vec![9]), 0).unwrap();
    assert!(file.name().ends_with(".gif"));
}

#[test]
fn address_is_under_the_configured_server() {
    let name = "00000000-0000-0000-0000-0000000000ab.png";
    let at = |base: Option<&str>| {
        let reply = writing("image/png").resume(Ok(()), base.map(str::to_string));
        reply.unwrap().url
    };
    assert_eq!(at(None), format!("http://localhost:8080/uploads/{}", name));
    assert_eq!(at(Some("https://xeta.example")), format!("https://xeta.example/uploads/{}", name));
    assert_eq!(
        refused(writing("image/png").resume(Err("disk full".to_string()), None)),
        (Status::InternalServerError, "disk full".to_string())
    );
}
