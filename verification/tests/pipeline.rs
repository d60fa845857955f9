use parity_wasm::builder;
use parity_wasm::elements::{
    ElementSection, ElementSegment, ExportEntry, ExportSection, InitExpr, Instruction,
    Instructions, Internal, Module, Section,
};
use pwasm_utils::rules;
use wasm_payload::{
    count_bodies, count_instructions, decode, payload, ActionParams, Malformation, ParamsType,
    PayloadError,
};

fn contract_with_body(body: Vec<Instruction>) -> Module {
    builder::module()
        .function()
        .signature()
        .param()
        .i32()
        .build()
        .body()
        .with_instructions(Instructions::new(body))
        .build()
        .build()
        .build()
}

fn contract() -> Module {
    contract_with_body(vec![Instruction::GetLocal(0), Instruction::Drop, Instruction::End])
}

fn contract_bytes(module: Module) -> Vec<u8> {
    parity_wasm::serialize(module).expect("a built module serializes")
}

fn instruction_count(module: &Module) -> usize {
    module
        .code_section()
        .map(|code| code.bodies().iter().map(|body| body.code().elements().len()).sum())
        .unwrap_or(0)
}

fn params(code: Vec<u8>, data: Option<Vec<u8>>, params_type: ParamsType) -> ActionParams {
    ActionParams { code: Some(code), data, params_type }
}

#[test]
fn payload_without_code_is_missing_code() {
    let costs = rules::Set::default();
    for params_type in [ParamsType::Embedded, ParamsType::Separate] {
        for data in [None, Some(vec![1u8, 2, 3])] {
            let params = ActionParams { code: None, data, params_type };
            assert_eq!(payload(&params, &costs, 1024).err(), Some(PayloadError::MissingCode));
        }
    }
}

#[test]
fn payload_embedded_gives_instrumented_module_and_trailer() {
    let trailer = [0xca, 0xfe, 0xba, 0xbe, 0x00, 0x01];
    let mut code = contract_bytes(contract());
    code.extend_from_slice(&trailer);
    let params = params(code, None, ParamsType::Embedded);
    let (module, data) =
        payload(&params, &rules::Set::default(), 1024).expect("the contract is in order");
    assert_eq!(data, &trailer[..]);
    assert!(instruction_count(&module) > instruction_count(&contract()));
    assert_eq!(
        module.code_section().expect("the contract has code").bodies()[0].code().elements(),
        &[
            Instruction::I32Const(3),
            Instruction::Call(0),
            Instruction::GetLocal(0),
            Instruction::Drop,
            Instruction::End,
        ][..]
    );
}

#[test]
fn payload_is_decode_then_meter_then_limit() {
    let costs = rules::Set::default().with_grow_cost(3);
    let metered = pwasm_utils::inject_gas_counter(contract(), &costs).expect("metering succeeds");
    let expected =
        pwasm_utils::stack_height::inject_limiter(metered, 77).expect("limiting succeeds");
    let params = params(contract_bytes(contract()), None, ParamsType::Separate);
    let (module, data) = payload(&params, &costs, 77).expect("the contract is in order");
    assert_eq!(module, expected);
    assert!(data.is_empty());
}

#[test]
fn payload_embedded_data_borrows_from_the_code() {
    let mut code = contract_bytes(contract());
    let module_len = code.len();
    code.extend_from_slice(&[0x99, 0x98]);
    let params = params(code, None, ParamsType::Embedded);
    let (_, data) = payload(&params, &rules::Set::default(), 1024).expect("in order");
    let buffer = params.code.as_ref().expect("code is present");
    assert_eq!(data.as_ptr(), buffer[module_len..].as_ptr());
}

#[test]
fn payload_embedded_without_trailer_has_no_data() {
    let params = params(contract_bytes(contract()), Some(vec![5, 5]), ParamsType::Embedded);
    let (_, data) = payload(&params, &rules::Set::default(), 1024).expect("in order");
    assert!(data.is_empty());
}

#[test]
fn payload_separate_gives_the_data_field() {
    let params = params(contract_bytes(contract()), Some(vec![10, 20, 30]), ParamsType::Separate);
    let (module, data) = payload(&params, &rules::Set::default(), 1024).expect("in order");
    assert_eq!(data, &[10u8, 20, 30][..]);
    assert!(instruction_count(&module) > instruction_count(&contract()));
}

#[test]
fn payload_separate_without_data_has_no_data() {
    let params = params(contract_bytes(contract()), None, ParamsType::Separate);
    let (_, data) = payload(&params, &rules::Set::default(), 1024).expect("in order");
    assert!(data.is_empty());
}

#[test]
fn payload_separate_takes_a_trailer_for_part_of_the_module() {
    let mut code = contract_bytes(contract());
    code.extend_from_slice(&[0x2a, 0x00]);
    let params = params(code, None, ParamsType::Separate);
    assert_eq!(
        payload(&params, &rules::Set::default(), 1024).err(),
        Some(PayloadError::DecodeError("InvalidSectionId(42)".to_string()))
    );
}

#[test]
fn payload_turns_away_what_is_no_module() {
    for params_type in [ParamsType::Embedded, ParamsType::Separate] {
        let params = params(b"certainly not a module".to_vec(), None, params_type);
        let outcome = payload(&params, &rules::Set::default(), 1024);
        assert!(matches!(outcome, Err(PayloadError::DecodeError(_))));
    }
}

#[test]
fn payload_separate_reports_the_decoder_diagnostic() {
    let params = params(vec![9, 9, 9, 9, 1, 0, 0, 0], None, ParamsType::Separate);
    let error = payload(&params, &rules::Set::default(), 1024).expect_err("wrong magic number");
    assert_eq!(error, PayloadError::DecodeError("InvalidMagic".to_string()));
    assert_eq!(error.message(), "Error deserializing contract code (InvalidMagic)");
}

#[test]
fn payload_embedded_short_code_fails_to_decode() {
    let header = [0u8, 0x61, 0x73, 0x6d, 1, 0, 0, 0];
    for len in 0..=header.len() {
        let params = params(header[..len].to_vec(), None, ParamsType::Embedded);
        let outcome = payload(&params, &rules::Set::default(), 1024);
        assert!(matches!(outcome, Err(PayloadError::DecodeError(_))), "length {}", len);
    }
}

#[test]
fn payload_separate_short_code_fails_to_decode() {
    let header = [0u8, 0x61, 0x73, 0x6d, 1, 0, 0, 0];
    for len in 0..header.len() {
        let params = params(header[..len].to_vec(), None, ParamsType::Separate);
        let outcome = payload(&params, &rules::Set::default(), 1024);
        assert!(matches!(outcome, Err(PayloadError::DecodeError(_))), "length {}", len);
    }
}

#[test]
fn payload_separate_bare_header_is_an_empty_contract() {
    let params = params(vec![0, 0x61, 0x73, 0x6d, 1, 0, 0, 0], None, ParamsType::Separate);
    let (module, data) = payload(&params, &rules::Set::default(), 1024).expect("in order");
    assert_eq!(instruction_count(&module), 0);
    assert!(data.is_empty());
}

#[test]
fn payload_turns_away_internal_memory() {
    let with_memory = builder::from_module(contract()).memory().with_min(1).build().build();
    for params_type in [ParamsType::Embedded, ParamsType::Separate] {
        let params = params(contract_bytes(with_memory.clone()), None, params_type);
        let error = payload(&params, &rules::Set::default(), 1024).expect_err("internal memory");
        assert_eq!(error, PayloadError::MalformedModule(Malformation::InternalMemory));
        assert_eq!(error.message(), "Malformed wasm module: internal memory");
    }
}

#[test]
fn payload_turns_away_internal_memory_before_metering() {
    let floats = contract_with_body(vec![
        Instruction::F32Const(0),
        Instruction::Drop,
        Instruction::End,
    ]);
    let with_memory = builder::from_module(floats).memory().with_min(1).build().build();
    let params = params(contract_bytes(with_memory), None, ParamsType::Separate);
    let costs = rules::Set::default().with_forbidden_floats();
    assert_eq!(
        payload(&params, &costs, 1024).err(),
        Some(PayloadError::MalformedModule(Malformation::InternalMemory))
    );
}

#[test]
fn payload_reports_failed_metering() {
    let floats = contract_with_body(vec![
        Instruction::F32Const(0),
        Instruction::Drop,
        Instruction::End,
    ]);
    let params = params(contract_bytes(floats), None, ParamsType::Separate);
    let costs = rules::Set::default().with_forbidden_floats();
    let error = payload(&params, &costs, 1024).expect_err("floats are forbidden");
    assert_eq!(error, PayloadError::MeteringInjectionFailed);
    assert_eq!(error.message(), "Wasm contract error: bytecode invalid");
}

#[test]
fn payload_reports_a_failed_limiter() {
    let underflow = contract_with_body(vec![
        Instruction::Drop,
        Instruction::Drop,
        Instruction::End,
    ]);
    let params = params(contract_bytes(underflow), None, ParamsType::Separate);
    let error =
        payload(&params, &rules::Set::default(), 1024).expect_err("the stack underflows");
    assert_eq!(error, PayloadError::StackLimiterFailed);
    assert_eq!(error.message(), "Wasm contract error: stack limiter failure");
}

#[test]
fn payload_takes_a_zero_stack_limit() {
    let params = params(contract_bytes(contract()), None, ParamsType::Separate);
    assert!(payload(&params, &rules::Set::default(), 0).is_ok());
}

#[test]
fn missing_code_message() {
    assert_eq!(PayloadError::MissingCode.message(), "Invalid wasm call");
}

#[test]
fn decode_error_message_wraps_the_diagnostic() {
    assert_eq!(
        PayloadError::DecodeError(String::new()).message(),
        "Error deserializing contract code ()"
    );
    assert_eq!(
        PayloadError::DecodeError("UnexpectedEof".to_string()).message(),
        "Error deserializing contract code (UnexpectedEof)"
    );
}

#[test]
fn malformation_description() {
    assert_eq!(Malformation::InternalMemory.description(), "internal memory");
}

#[test]
fn payload_fails_metering_on_a_call_of_the_last_function_index() {
    let bytes = vec![
        0x00, 0x61, 0x73, 0x6d, 0x01, 0x00, 0x00, 0x00, // header
        0x01, 0x04, 0x01, 0x60, 0x00, 0x00, // one type: no parameters, no result
        0x03, 0x02, 0x01, 0x00, // one function of that type
        0x0a, 0x0a, 0x01, 0x08, 0x00, // one body of eight bytes, no locals
        0x10, 0xff, 0xff, 0xff, 0xff, 0x0f, // call 0xffffffff
        0x0b, // end
    ];
    let decoded = decode(&bytes).expect("the decoder checks no index");
    assert_eq!(
        decoded.code_section().expect("there is code").bodies()[0].code().elements(),
        &[Instruction::Call(u32::MAX), Instruction::End][..]
    );
    for params_type in [ParamsType::Embedded, ParamsType::Separate] {
        let params = params(bytes.clone(), None, params_type);
        assert_eq!(
            payload(&params, &rules::Set::default(), 1024).err(),
            Some(PayloadError::MeteringInjectionFailed)
        );
    }
}

#[test]
fn payload_fails_metering_on_the_last_function_index_anywhere() {
    let exporting = Module::new(vec![Section::Export(ExportSection::with_entries(vec![
        ExportEntry::new("entry".to_string(), Internal::Function(u32::MAX)),
    ]))]);
    let in_table = Module::new(vec![Section::Element(ElementSection::with_entries(vec![
        ElementSegment::new(
            0,
            InitExpr::new(vec![Instruction::I32Const(0), Instruction::End]),
            vec![0, u32::MAX],
        ),
    ]))]);
    let starting = Module::new(vec![Section::Start(u32::MAX)]);
    for module in [exporting, in_table, starting] {
        let bytes = contract_bytes(module.clone());
        assert_eq!(decode(&bytes), Ok(module));
        let params = params(bytes, None, ParamsType::Separate);
        let error = payload(&params, &rules::Set::default(), 1024).expect_err("no room");
        assert_eq!(error, PayloadError::MeteringInjectionFailed);
        assert_eq!(error.message(), "Wasm contract error: bytecode invalid");
    }
}

#[test]
fn payload_embedded_data_lies_within_the_code() {
    let module = contract_bytes(contract());
    for trailer in [vec![], vec![0xaa], vec![12, 1, 0], vec![0xee; 300]] {
        let mut code = module.clone();
        code.extend_from_slice(&trailer);
        let params = params(code.clone(), Some(vec![7; 1000]), ParamsType::Embedded);
        let (_, data) = payload(&params, &rules::Set::default(), 1024).expect("in order");
        assert!(data.len() <= code.len());
        assert_eq!(data.len() + parity_wasm::peek_size(&code), code.len());
        assert_eq!(data, &code[code.len() - data.len()..]);
    }
}

#[test]
fn payload_adds_two_instructions_to_every_body_at_least() {
    let bytes = contract_bytes(contract());
    let decoded = decode(&bytes).expect("a module");
    let params = params(bytes, None, ParamsType::Separate);
    let (module, _) = payload(&params, &rules::Set::default(), 1024).expect("in order");
    let before = count_instructions(&decoded).expect("a small module");
    let after = count_instructions(&module).expect("a small module");
    assert_eq!(before, instruction_count(&decoded));
    assert_eq!(count_bodies(&decoded), 1);
    assert!(after >= before + 2);
}
