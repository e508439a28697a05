use strava::activities::WorkoutType;
use strava::uploads::{upload_form, CreateUpload, DataType, FormPart};

fn base_upload() -> CreateUpload {
    CreateUpload {
        name: None,
        description: None,
        trainer: None,
        commute: None,
        data_type: DataType::Gpx,
        external_id: "ride-7".to_string(),
    }
}

fn find<'a>(parts: &'a [FormPart], name: &str) -> Option<&'a FormPart> {
    parts.iter().find(|p| p.name == name)
}

#[test]
fn data_type_tags_are_exact() {
    assert_eq!(DataType::Fit.to_string(), "fit");
    assert_eq!(DataType::FitGz.to_string(), "fit_gz");
    assert_eq!(DataType::Tcx.to_string(), "tcx");
    assert_eq!(DataType::TcxGz.to_string(), "tcx_gz");
    assert_eq!(DataType::Gpx.to_string(), "gpx");
    assert_eq!(DataType::GpxGz.to_string(), "gpx_gz");
}

#[test]
fn present_trainer_flag_is_submitted_as_one_and_absent_name_is_omitted() {
    let mut upload = base_upload();
    upload.trainer = Some(true);
    let parts = upload_form(upload, "<gpx/>".to_string());
    let trainer = find(&parts, "trainer").expect("the trainer field must be submitted");
    assert_eq!(trainer.value, "1");
    assert_eq!(trainer.file_name, None);
    assert!(find(&parts, "name").is_none());
}

#[test]
fn false_flags_are_submitted_as_zero() {
    let mut upload = base_upload();
    upload.trainer = Some(false);
    upload.commute = Some(false);
    let parts = upload_form(upload, "<gpx/>".to_string());
    assert_eq!(find(&parts, "trainer").unwrap().value, "0");
    assert_eq!(find(&parts, "commute").unwrap().value, "0");
}

#[test]
fn required_parts_come_first_and_in_order() {
    let upload = base_upload();
    let parts = upload_form(upload, "<gpx/>".to_string());
    assert_eq!(parts.len(), 3);
    assert_eq!(parts[0].name, "data_type");
    assert_eq!(parts[0].value, "gpx");
    assert_eq!(parts[0].file_name, None);
    assert_eq!(parts[1].name, "external_id");
    assert_eq!(parts[1].value, "ride-7");
    assert_eq!(parts[1].file_name, None);
    assert_eq!(parts[2].name, "file");
    assert_eq!(parts[2].value, "<gpx/>");
    assert_eq!(parts[2].file_name, Some("file".to_string()));
}

#[test]
fn all_optional_fields_follow_in_a_fixed_order() {
    let upload = CreateUpload {
        name: Some("Morning ride".to_string()),
        description: Some("easy spin".to_string()),
        trainer: Some(true),
        commute: Some(false),
        data_type: DataType::FitGz,
        external_id: "x1".to_string(),
    };
    let parts = upload_form(upload, "bytes".to_string());
    let names: Vec<&str> = parts.iter().map(|p| p.name.as_str()).collect();
    assert_eq!(
        names,
        vec!["data_type", "external_id", "file", "name", "description", "trainer", "commute"]
    );
    assert_eq!(find(&parts, "name").unwrap().value, "Morning ride");
    assert_eq!(find(&parts, "description").unwrap().value, "easy spin");
    assert_eq!(find(&parts, "trainer").unwrap().value, "1");
    assert_eq!(find(&parts, "commute").unwrap().value, "0");
}

#[test]
fn workout_type_codes_are_exact() {
    assert_eq!(WorkoutType::DefaultRun.to_code(), 0);
    assert_eq!(WorkoutType::RaceRun.to_code(), 1);
    assert_eq!(WorkoutType::LongRun.to_code(), 2);
    assert_eq!(WorkoutType::WorkoutRun.to_code(), 3);
    assert_eq!(WorkoutType::DefaultRide.to_code(), 10);
    assert_eq!(WorkoutType::RaceRide.to_code(), 11);
    assert_eq!(WorkoutType::WorkoutRide.to_code(), 12);
}
