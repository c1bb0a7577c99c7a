use russell::solver_intel_dss::{handle_intel_dss_error_code, MKL_DSS_SUCCESS};
use russell::sparse::desc;

#[test]
fn handle_intel_dss_error_code_works() {
    let default = "Error: unknown error returned by c-code (IntelDSS)";
    for i in 1..17 {
        let res = handle_intel_dss_error_code(-i);
        assert!(res.len() > 0);
        assert_ne!(res, default);
    }
    for i in 17..27 {
        let res = handle_intel_dss_error_code(i);
        assert!(res.len() > 0);
        assert_ne!(res, default);
    }
    assert_eq!(
        handle_intel_dss_error_code(100000),
        "Error: c-code returned null pointer (IntelDSS)"
    );
    assert_eq!(
        handle_intel_dss_error_code(200000),
        "Error: c-code failed to allocate memory (IntelDSS)"
    );
    assert_eq!(
        handle_intel_dss_error_code(400000),
        "This code has not been compiled with Intel DSS"
    );
    assert_eq!(handle_intel_dss_error_code(123), default);
}

#[test]
fn intel_dss_named_codes_have_their_names() {
    assert_eq!(handle_intel_dss_error_code(-1), "MKL_DSS_ZERO_PIVOT");
    assert_eq!(handle_intel_dss_error_code(-8), "MKL_DSS_NOT_SQUARE");
    assert_eq!(handle_intel_dss_error_code(-16), "MKL_DSS_VALUES_ERR");
    assert_eq!(handle_intel_dss_error_code(17), "MKL_DSS_STATISTICS_INVALID_MATRIX");
    assert_eq!(handle_intel_dss_error_code(26), "MKL_DSS_OOC_RW_ERR");
}

#[test]
fn intel_dss_codes_next_to_named_ones_are_unknown() {
    let default = "Error: unknown error returned by c-code (IntelDSS)";
    assert_eq!(handle_intel_dss_error_code(MKL_DSS_SUCCESS), default);
    assert_eq!(handle_intel_dss_error_code(-17), default);
    assert_eq!(handle_intel_dss_error_code(16), default);
    assert_eq!(handle_intel_dss_error_code(27), default);
    assert_eq!(handle_intel_dss_error_code(i32::MIN), default);
    assert_eq!(handle_intel_dss_error_code(i32::MAX), default);
}

#[test]
fn desc_works() {
    assert_eq!(desc(), "Sparse matrix tools and solvers");
}
