use sniprun::data::DataHolder;
use sniprun::error::SniprunError;
use sniprun::level::SupportLevel;
use sniprun::perl::Perl_original;
use sniprun::pipeline::classify_execution;
use sniprun::pipeline::Interpreter;

#[test]
fn simple_print() {
    let mut data = DataHolder::new();
    data.current_bloc = String::from("print \"Hello,Perl!\"");
    let mut interpreter = Perl_original::new(data);
    interpreter.fetch_code().unwrap();
    interpreter.add_boilerplate().unwrap();
    let artifact = interpreter.build();
    assert_eq!(artifact.content, "print \"Hello,Perl!\"");
    // what the perl binary prints for that script
    let res = classify_execution(true, String::from("Hello,Perl!"), String::new());
    let string_result = res.unwrap();
    assert_eq!(string_result, "Hello,Perl!");
}

#[test]
fn fetch_selects_bloc_verbatim() {
    let mut data = DataHolder::new();
    data.current_bloc = String::from("  print 1;\n  print 2;\n");
    data.current_line = String::from("print 3;");
    let mut interpreter = Perl_original::new_with_level(data, SupportLevel::Bloc);
    interpreter.fetch_code().unwrap();
    let artifact = interpreter.build();
    assert_eq!(artifact.content, "  print 1;\n  print 2;\n");
}

#[test]
fn fetch_falls_back_to_line() {
    let mut data = DataHolder::new();
    data.current_bloc = String::from(" \t\r\n ");
    data.current_line = String::from("print 1+1");
    let mut interpreter = Perl_original::new_with_level(data, SupportLevel::Bloc);
    interpreter.fetch_code().unwrap();
    let artifact = interpreter.build();
    assert_eq!(artifact.content, "print 1+1");
}

#[test]
fn fetch_blank_sources_yield_empty_buffer() {
    let mut data = DataHolder::new();
    data.current_bloc = String::from(" \n\t");
    data.current_line = String::from("   ");
    let mut interpreter = Perl_original::new_with_level(data, SupportLevel::Bloc);
    let res = interpreter.fetch_code();
    assert!(res.is_ok());
    let artifact = interpreter.build();
    assert_eq!(artifact.content, "");
}

#[test]
fn fetch_level_caps_which_source_is_taken() {
    let mut data = DataHolder::new();
    data.current_bloc = String::from("print \"bloc\"");
    data.current_line = String::from("print \"line\"");
    let mut at_line = Perl_original::new_with_level(data, SupportLevel::Line);
    at_line.fetch_code().unwrap();
    assert_eq!(at_line.build().content, "print \"line\"");

    let mut data = DataHolder::new();
    data.current_bloc = String::from("print \"bloc\"");
    data.current_line = String::from("print \"line\"");
    let mut unsupported = Perl_original::new_with_level(data, SupportLevel::Unsupported);
    let res = unsupported.fetch_code();
    assert!(res.is_ok());
    assert_eq!(unsupported.build().content, "");
}

#[test]
fn build_twice_gives_identical_content() {
    let mut data = DataHolder::new();
    data.current_bloc = String::from("print 42");
    let mut interpreter = Perl_original::new(data);
    interpreter.fetch_code().unwrap();
    let first = interpreter.build();
    let second = interpreter.build();
    assert_eq!(first.content, second.content);
    assert_eq!(first.path, second.path);
    assert_eq!(second.content, "print 42");
}

#[test]
fn bloc_hello_world() {
    let mut data = DataHolder::new();
    data.current_bloc = String::from("print \"Hello,World!\"");
    let mut interpreter = Perl_original::new_with_level(data, SupportLevel::Bloc);
    interpreter.fetch_code().unwrap();
    interpreter.add_boilerplate().unwrap();
    let artifact = interpreter.build();
    assert_eq!(artifact.content, "print \"Hello,World!\"");
    let res = classify_execution(true, String::from("Hello,World!"), String::new());
    assert_eq!(res.unwrap(), "Hello,World!");
}

#[test]
fn line_addition() {
    let mut data = DataHolder::new();
    data.current_line = String::from("print 1+1");
    let mut interpreter = Perl_original::new_with_level(data, SupportLevel::Line);
    interpreter.fetch_code().unwrap();
    let artifact = interpreter.build();
    assert_eq!(artifact.content, "print 1+1");
    let res = classify_execution(true, String::from("2"), String::new());
    assert_eq!(res.unwrap(), "2");
}

#[test]
fn failed_run_carries_stderr_not_stdout() {
    let stderr_text = "syntax error at main.pl line 1, near \"print(\"";
    let res = classify_execution(
        false,
        String::from("partial output"),
        String::from(stderr_text),
    );
    match res {
        Ok(_) => panic!("a non-success status must not classify as success"),
        Err(SniprunError::RuntimeError(msg)) => assert_eq!(msg, stderr_text),
    }
}

#[test]
fn construction_is_repeatable_for_one_work_dir() {
    let mut data = DataHolder::new();
    data.work_dir = String::from("/tmp/snippet_cache");
    let first = Perl_original::new_with_level(data.clone(), SupportLevel::Bloc);
    let second = Perl_original::new_with_level(data, SupportLevel::Bloc);
    assert_eq!(first.main_file_path, "/tmp/snippet_cache/perl_original/main.pl");
    assert_eq!(second.main_file_path, first.main_file_path);
}

#[test]
fn supported_languages_start_with_display_name() {
    let langs = Perl_original::get_supported_languages();
    assert!(!langs.is_empty());
    assert_eq!(langs[0], "Perl");
    assert_eq!(langs, vec!["Perl", "perl", "pm", "pl"]);
}

#[test]
fn name_ceiling_and_filetype_default() {
    assert_eq!(Perl_original::get_name(), "Perl_original");
    assert_eq!(Perl_original::get_max_support_level(), SupportLevel::Bloc);
    assert!(Perl_original::default_for_filetype());
}

#[test]
fn level_accessor_and_mutator() {
    let data = DataHolder::new();
    let mut interpreter = Perl_original::new_with_level(data, SupportLevel::Line);
    assert_eq!(interpreter.get_current_level(), SupportLevel::Line);
    interpreter.set_current_level(SupportLevel::Bloc);
    assert_eq!(interpreter.get_current_level(), SupportLevel::Bloc);
}

#[test]
fn get_data_returns_owned_copy() {
    let mut data = DataHolder::new();
    data.current_line = String::from("print 1");
    data.current_bloc = String::from("print 2");
    data.work_dir = String::from("/tmp/cache");
    data.cli_args = vec![String::from("-w")];
    let interpreter = Perl_original::new_with_level(data, SupportLevel::Bloc);
    let copy = interpreter.get_data();
    assert_eq!(copy.current_line, "print 1");
    assert_eq!(copy.current_bloc, "print 2");
    assert_eq!(copy.work_dir, "/tmp/cache");
    assert_eq!(copy.cli_args, vec![String::from("-w")]);
}

#[test]
fn execution_command_orders_arguments() {
    let mut data = DataHolder::new();
    data.work_dir = String::from("/tmp/cache");
    data.cli_args = vec![String::from("-w"), String::from("extra")];
    let interpreter = Perl_original::new_with_level(data, SupportLevel::Bloc);
    let request = interpreter.execution_command();
    assert_eq!(request.program, "perl");
    assert_eq!(
        request.args,
        vec![
            String::from("/tmp/cache/perl_original/main.pl"),
            String::from("-w"),
            String::from("extra"),
        ]
    );
}

#[test]
fn prepare_artifact_runs_the_stages_in_order() {
    let mut data = DataHolder::new();
    data.work_dir = String::from("/tmp/snippet_cache");
    data.current_bloc = String::from("print \"Hello,World!\"");
    let (_backend, artifact) =
        sniprun::pipeline::prepare_artifact::<Perl_original>(data, SupportLevel::Bloc);
    assert_eq!(artifact.path, "/tmp/snippet_cache/perl_original/main.pl");
    assert_eq!(artifact.content, "print \"Hello,World!\"");
}
