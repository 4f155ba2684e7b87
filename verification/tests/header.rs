use ngx_compress_module::coding::{ContentCoding, StatsMode};
use ngx_compress_module::pool::{CodecKey, Provision};
use ngx_compress_module::header::{
    HTTP_OK, HeaderStep, SubmitAction, SubmitEvent, combine_accept_encoding, header_step,
    is_accept_encoding, response_facts, submit_step,
};
use ngx_compress_module::observability::FailureClass;
use ngx_compress_module::select::{CodecSelectionFailure, Plan};

#[test]
fn response_facts_copy_policy_inputs() {
    let facts = response_facts(true, HTTP_OK, false, 1234, Some("text/html".to_string()))
        .expect("facts");
    assert!(facts.main_response);
    assert!(facts.successful);
    assert!(!facts.already_encoded);
    assert_eq!(facts.content_length, Some(1234));
    assert_eq!(facts.content_type, "text/html");

    let facts = response_facts(false, 404, true, -1, Some(String::new())).expect("facts");
    assert!(!facts.successful);
    assert!(facts.already_encoded);
    assert_eq!(facts.content_length, None);

    assert!(response_facts(true, HTTP_OK, false, 0, None).is_none());
    assert!(response_facts(true, 1 << 40, false, 0, Some(String::new())).is_none());
}

#[test]
fn accept_encoding_values_are_combined_in_order() {
    assert!(is_accept_encoding(b"Accept-Encoding"));
    assert!(is_accept_encoding(b"accept-encoding"));
    assert!(!is_accept_encoding(b"Accept-Encodings"));
    assert!(!is_accept_encoding(b"Accept"));
    assert_eq!(combine_accept_encoding(&vec!["gzip".into(), "br;q=0.5".into()]), "gzip,br;q=0.5");
    assert_eq!(combine_accept_encoding(&vec!["".into(), "zstd".into()]), "zstd");
    assert_eq!(combine_accept_encoding(&vec!["gzip".into(), "".into()]), "gzip,");
    assert_eq!(combine_accept_encoding(&Vec::new()), "");
}

#[test]
fn header_steps_follow_the_decision() {
    let none: Result<Option<Plan<()>>, CodecSelectionFailure> = Ok(None);
    assert_eq!(header_step(&none, true), HeaderStep::Pass);
    let not_acceptable: Result<Option<Plan<()>>, CodecSelectionFailure> =
        Err(CodecSelectionFailure::NotAcceptable);
    assert_eq!(header_step(&not_acceptable, true), HeaderStep::NotAcceptable { add_vary: true });
    assert_eq!(header_step(&not_acceptable, false), HeaderStep::NotAcceptable { add_vary: false });
    let failed: Result<Option<Plan<()>>, CodecSelectionFailure> =
        Err(CodecSelectionFailure::Initialization);
    assert_eq!(
        header_step(&failed, true),
        HeaderStep::PassLogged(FailureClass::CodecInitialization)
    );
    let plan = |provision| Plan {
        key: CodecKey::new(ContentCoding::Gzip, 6, 0),
        provision,
        coding: ContentCoding::Gzip,
        vary: true,
        buffer_size: 8192,
        stats_mode: StatsMode::Off,
        buffer_count: 16,
    };
    let recovered: Result<Option<Plan<()>>, CodecSelectionFailure> =
        Ok(Some(plan(Provision::Fresh { reset_recovered: true })));
    assert_eq!(header_step(&recovered, true), HeaderStep::Submit { log_reset: true });
    let reused: Result<Option<Plan<()>>, CodecSelectionFailure> = Ok(Some(plan(Provision::Reused(()))));
    assert_eq!(header_step(&reused, true), HeaderStep::Submit { log_reset: false });
}

#[test]
fn submit_adds_vary_before_encoding_and_installs_last() {
    assert_eq!(
        submit_step(true, StatsMode::Off, SubmitEvent::Begin { fault_injected: true }),
        SubmitAction::PassLogged(FailureClass::OutputAllocation)
    );
    assert_eq!(submit_step(true, StatsMode::Off, SubmitEvent::Begin { fault_injected: false }), SubmitAction::AddVary);
    assert_eq!(submit_step(false, StatsMode::Off, SubmitEvent::Begin { fault_injected: false }), SubmitAction::AddEncoding);
    assert_eq!(submit_step(true, StatsMode::Off, SubmitEvent::VaryAdded(true)), SubmitAction::AddEncoding);
    assert_eq!(
        submit_step(true, StatsMode::Off, SubmitEvent::VaryAdded(false)),
        SubmitAction::PassLogged(FailureClass::OutputAllocation)
    );
    assert_eq!(
        submit_step(true, StatsMode::ServerTiming, SubmitEvent::EncodingAdded(true)),
        SubmitAction::Install { expect_trailers: true }
    );
    assert_eq!(
        submit_step(true, StatsMode::Variables, SubmitEvent::EncodingAdded(true)),
        SubmitAction::Install { expect_trailers: false }
    );
    assert_eq!(
        submit_step(true, StatsMode::Off, SubmitEvent::EncodingAdded(false)),
        SubmitAction::PassLogged(FailureClass::OutputAllocation)
    );
    assert_eq!(submit_step(true, StatsMode::Off, SubmitEvent::ContextInstalled(true)), SubmitAction::SendDownstream);
    assert_eq!(
        submit_step(true, StatsMode::Off, SubmitEvent::ContextInstalled(false)),
        SubmitAction::Fail(FailureClass::OutputAllocation)
    );
}
