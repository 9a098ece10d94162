use honeybee::naming::{
    audio_data_url, audio_url_of, image_data_url, image_url_of, recording_filename_at, LocalTime,
    recording_filename,
};

#[test]
fn filename_from_timestamp() {
    assert_eq!(recording_filename("20240315_093007"), "REC_20240315_093007.wav");
}

fn at(year: i32, month: u32, day: u32, hour: u32, minute: u32, second: u32) -> LocalTime {
    LocalTime { year, month, day, hour, minute, second }
}

#[test]
fn filename_from_local_time() {
    assert_eq!(
        recording_filename_at(&at(2024, 3, 15, 9, 30, 7)),
        Some("REC_20240315_093007.wav".to_string())
    );
    assert_eq!(
        recording_filename_at(&at(2024, 2, 29, 23, 59, 59)),
        Some("REC_20240229_235959.wav".to_string())
    );
    assert_eq!(
        recording_filename_at(&at(7, 1, 1, 0, 0, 0)),
        Some("REC_00070101_000000.wav".to_string())
    );
}

#[test]
fn filename_for_years_outside_four_digits() {
    assert_eq!(
        recording_filename_at(&at(12345, 6, 7, 8, 9, 10)),
        Some("REC_+123450607_080910.wav".to_string())
    );
    assert_eq!(
        recording_filename_at(&at(-5, 6, 7, 8, 9, 10)),
        Some("REC_-00050607_080910.wav".to_string())
    );
}

#[test]
fn filename_refuses_impossible_times() {
    assert_eq!(recording_filename_at(&at(2023, 2, 29, 12, 0, 0)), None);
    assert_eq!(recording_filename_at(&at(2024, 13, 1, 12, 0, 0)), None);
    assert_eq!(recording_filename_at(&at(2024, 4, 31, 12, 0, 0)), None);
    assert_eq!(recording_filename_at(&at(2024, 1, 1, 24, 0, 0)), None);
    assert_eq!(recording_filename_at(&at(2024, 1, 1, 0, 60, 0)), None);
    assert_eq!(recording_filename_at(&at(2024, 1, 1, 0, 0, 60)), None);
}

#[test]
fn audio_url_encodes_bytes() {
    assert_eq!(audio_data_url(b"hello"), "data:audio/wav;base64,aGVsbG8=");
    assert_eq!(audio_data_url(b""), "data:audio/wav;base64,");
    assert_eq!(audio_data_url(&[0xff]), "data:audio/wav;base64,/w==");
    assert_eq!(audio_data_url(b"abc"), "data:audio/wav;base64,YWJj");
    assert_eq!(audio_url_of("QUJD"), "data:audio/wav;base64,QUJD");
}

#[test]
fn image_url_encodes_bytes() {
    assert_eq!(image_data_url(&[0xff, 0xd8, 0xff]), "data:image/jpeg;base64,/9j/");
    assert_eq!(image_url_of("AA=="), "data:image/jpeg;base64,AA==");
}
