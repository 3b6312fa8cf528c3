use mdbx_db::error::{
    mdbx_result, Error, MDBX_BAD_VALSIZE, MDBX_BUSY, MDBX_DBS_FULL, MDBX_EACCESS, MDBX_EINVAL,
    MDBX_ENOMEM, MDBX_EPERM, MDBX_MAP_FULL, MDBX_NOTFOUND, MDBX_READERS_FULL, MDBX_RESULT_TRUE,
    MDBX_SUCCESS, MDBX_TXN_FULL,
};

#[test]
fn success_is_ok_false() {
    assert_eq!(mdbx_result(MDBX_SUCCESS), Ok(false));
    assert_eq!(mdbx_result(0), Ok(false));
}

#[test]
fn result_true_is_ok_true() {
    assert_eq!(mdbx_result(MDBX_RESULT_TRUE), Ok(true));
    assert_eq!(mdbx_result(-1), Ok(true));
}

#[test]
fn not_found_status() {
    assert_eq!(MDBX_NOTFOUND, -30798);
    assert_eq!(mdbx_result(-30798), Err(Error::NotFound));
    assert_eq!(Error::from_err_code(-30798), Error::NotFound);
}

#[test]
fn invalid_input_statuses() {
    assert_eq!(MDBX_BAD_VALSIZE, -30781);
    assert_eq!(MDBX_EINVAL, 22);
    assert_eq!(mdbx_result(-30781), Err(Error::InvalidInput));
    assert_eq!(mdbx_result(22), Err(Error::InvalidInput));
}

#[test]
fn resource_exhausted_statuses() {
    assert_eq!(
        [MDBX_MAP_FULL, MDBX_DBS_FULL, MDBX_READERS_FULL, MDBX_TXN_FULL, MDBX_BUSY, MDBX_ENOMEM],
        [-30792, -30791, -30790, -30788, -30778, 12]
    );
    for code in [-30792, -30791, -30790, -30788, -30778, 12] {
        assert_eq!(mdbx_result(code), Err(Error::ResourceExhausted));
    }
}

#[test]
fn permission_denied_statuses() {
    assert_eq!(MDBX_EACCESS, 13);
    assert_eq!(MDBX_EPERM, 1);
    assert_eq!(mdbx_result(13), Err(Error::PermissionDenied));
    assert_eq!(mdbx_result(1), Err(Error::PermissionDenied));
}

#[test]
fn other_statuses_keep_their_code() {
    // key exists, corrupted, bad dbi, an I/O error, and the ends of the range
    for code in [-30799, -30796, -30780, 5, -2, 2, i32::MIN, i32::MAX] {
        assert_eq!(mdbx_result(code), Err(Error::Engine(code)));
        assert_eq!(Error::from_err_code(code), Error::Engine(code));
    }
}

#[test]
fn neighbours_of_classified_codes_are_not_classified() {
    // -30789 lies between two limits of the engine and is none itself
    assert_eq!(mdbx_result(-30789), Err(Error::Engine(-30789)));
    assert_eq!(mdbx_result(-30797), Err(Error::Engine(-30797)));
    assert_eq!(mdbx_result(14), Err(Error::Engine(14)));
    assert_eq!(mdbx_result(21), Err(Error::Engine(21)));
    assert_eq!(mdbx_result(23), Err(Error::Engine(23)));
}

#[test]
fn only_two_codes_succeed() {
    for code in -40000..40000 {
        let ok = mdbx_result(code).is_ok();
        assert_eq!(ok, code == 0 || code == -1);
    }
}

#[test]
fn a_success_code_has_no_class_of_its_own() {
    assert_eq!(Error::from_err_code(0), Error::Engine(0));
    assert_eq!(Error::from_err_code(-1), Error::Engine(-1));
}
