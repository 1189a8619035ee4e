use rustshare::upload::{UploadError, UploadForm, MAX_FILE_SIZE};

fn push(form: UploadForm, chunk: &[u8]) -> UploadForm {
    match form.push_file_chunk(chunk) {
        Ok(form) => form,
        Err(e) => panic!("chunk of {} bytes refused: {:?}", chunk.len(), e),
    }
}

#[test]
fn upload_limit_is_ten_mebibytes() {
    assert_eq!(MAX_FILE_SIZE, 10 * 1024 * 1024);
}

#[test]
fn upload_form_hands_out_file_and_password() {
    let form = UploadForm::new();
    let form = push(form, b"hello ");
    let form = form.set_password("pw".to_string());
    let form = push(form, b"world");
    assert_eq!(form.finish(), Ok((b"hello world".to_vec(), "pw".to_string())));
}

#[test]
fn upload_form_without_pieces_has_no_file() {
    assert_eq!(UploadForm::new().finish(), Err(UploadError::NoFile));
}

#[test]
fn upload_form_with_only_a_password_has_no_file() {
    let form = UploadForm::new().set_password("pw".to_string());
    assert_eq!(form.finish(), Err(UploadError::NoFile));
}

#[test]
fn upload_form_with_empty_chunks_has_no_file() {
    let form = push(UploadForm::new(), b"");
    let form = form.set_password("pw".to_string());
    assert_eq!(form.finish(), Err(UploadError::NoFile));
}

#[test]
fn upload_form_without_password_says_so() {
    let form = push(UploadForm::new(), b"data");
    assert_eq!(form.finish(), Err(UploadError::NoPassword));
}

#[test]
fn upload_form_accepts_the_empty_password() {
    let form = push(UploadForm::new(), b"data");
    let form = form.set_password(String::new());
    assert_eq!(form.finish(), Ok((b"data".to_vec(), String::new())));
}

#[test]
fn upload_form_keeps_the_last_password() {
    let form = push(UploadForm::new(), b"data");
    let form = form.set_password("first".to_string());
    let form = form.set_password("second".to_string());
    assert_eq!(form.finish(), Ok((b"data".to_vec(), "second".to_string())));
}

#[test]
fn upload_form_accepts_a_file_of_exactly_the_limit() {
    let half = vec![7u8; MAX_FILE_SIZE / 2];
    let form = push(UploadForm::new(), &half);
    let form = push(form, &half);
    let form = form.set_password("pw".to_string());
    match form.finish() {
        Ok((file, _)) => assert_eq!(file.len(), MAX_FILE_SIZE),
        Err(e) => panic!("refused: {:?}", e),
    }
}

#[test]
fn upload_form_refuses_one_byte_over_the_limit() {
    let full = vec![7u8; MAX_FILE_SIZE];
    let form = push(UploadForm::new(), &full);
    match form.push_file_chunk(&[0u8]) {
        Ok(_) => panic!("a file over the limit was accepted"),
        Err(e) => assert_eq!(e, UploadError::FileTooLarge),
    }
}

#[test]
fn upload_form_refuses_a_single_chunk_over_the_limit() {
    let chunk = vec![0u8; MAX_FILE_SIZE + 1];
    match UploadForm::new().push_file_chunk(&chunk) {
        Ok(_) => panic!("a file over the limit was accepted"),
        Err(e) => assert_eq!(e, UploadError::FileTooLarge),
    }
}
