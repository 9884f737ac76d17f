use vstd::prelude::*;
use vstd::string::StringExecFns;

use crate::data::DataHolder;
use crate::data::DataHolderView;
use crate::error::SniprunError;
use crate::level::SupportLevel;
use crate::pipeline::Artifact;
use crate::pipeline::ExecutionRequest;
use crate::pipeline::Interpreter;
use crate::pipeline::ReplLikeInterpreter;
use crate::pipeline::bloc_is_blank;
use crate::pipeline::fetched_code;
use crate::pipeline::line_is_blank;

verus! {

/// The artifact path this backend fixes at construction: one `main.pl` in
/// its private subdirectory of the shared cache directory.
pub open spec fn main_path_of(work_dir: Seq<char>) -> Seq<char> {
    work_dir + "/perl_original/main.pl"@
}

/// The Perl backend: executes a selected block or line by materializing it
/// as a script and handing it to the `perl` binary.
#[allow(non_camel_case_types)]
pub struct Perl_original {
    pub support_level: SupportLevel,
    pub data: DataHolder,
    pub code: String,
    pub main_file_path: String,
}

impl Clone for Perl_original {
    fn clone(&self) -> (r: Self)
        ensures
            r.support_level == self.support_level,
            r.data@ == self.data@,
            r.code@ == self.code@,
            r.main_file_path@ == self.main_file_path@,
    {
        Perl_original {
            support_level: self.support_level,
            data: self.data.clone(),
            code: self.code.clone(),
            main_file_path: self.main_file_path.clone(),
        }
    }
}

impl ReplLikeInterpreter for Perl_original {

}

impl Interpreter for Perl_original {
    open spec fn data_spec(&self) -> DataHolderView {
        self.data@
    }

    open spec fn level_spec(&self) -> SupportLevel {
        self.support_level
    }

    open spec fn code_spec(&self) -> Seq<char> {
        self.code@
    }

    open spec fn artifact_path_spec(&self) -> Seq<char> {
        self.main_file_path@
    }

    open spec fn name_spec() -> Seq<char> {
        "Perl_original"@
    }

    open spec fn languages_spec() -> Seq<Seq<char>> {
        seq!["Perl"@, "perl"@, "pm"@, "pl"@]
    }

    open spec fn max_level_spec() -> SupportLevel {
        SupportLevel::Bloc
    }

    open spec fn program_spec() -> Seq<char> {
        "perl"@
    }

    open spec fn boilerplate_spec(code: Seq<char>) -> Seq<char> {
        code
    }

    fn new_with_level(data: DataHolder, support_level: SupportLevel) -> (r: Box<Perl_original>)
        ensures
            (*r).main_file_path@ == main_path_of(data@.work_dir),
    {
        let lwd = data.work_dir.clone().concat("/perl_original");
        let mfp = lwd.concat("/main.pl");
        proof {
            reveal_strlit("/perl_original");
            reveal_strlit("/main.pl");
            reveal_strlit("/perl_original/main.pl");
            assert(mfp@ =~= main_path_of(data.work_dir@));
        }
        Box::new(
            Perl_original {
                data,
                support_level,
                code: String::new(),
                main_file_path: mfp,
            },
        )
    }

    fn new(data: DataHolder) -> (r: Box<Perl_original>)
        ensures
            (*r).main_file_path@ == main_path_of(data@.work_dir),
    {
        Perl_original::new_with_level(data, Perl_original::get_max_support_level())
    }

    fn get_supported_languages() -> (r: Vec<String>) {
        let mut v: Vec<String> = Vec::new();
        v.push(String::from_str("Perl"));
        v.push(String::from_str("perl"));
        v.push(String::from_str("pm"));
        v.push(String::from_str("pl"));
        proof {
            assert(v.deep_view() =~= Self::languages_spec());
        }
        v
    }

    fn get_name() -> (r: String) {
        String::from_str("Perl_original")
    }

    fn get_current_level(&self) -> (r: SupportLevel) {
        self.support_level
    }

    fn set_current_level(&mut self, level: SupportLevel) {
        self.support_level = level;
    }

    fn get_data(&self) -> (r: DataHolder) {
        self.data.clone()
    }

    fn get_max_support_level() -> (r: SupportLevel) {
        SupportLevel::Bloc
    }

    fn default_for_filetype() -> (r: bool)
        ensures
            r == true,
    {
        true
    }

    fn fetch_code(&mut self) -> (r: Result<(), SniprunError>) {
        if !bloc_is_blank(self.data.current_bloc.as_str()) && self.support_level.at_least(
            SupportLevel::Bloc,
        ) {
            self.code = self.data.current_bloc.clone();
        } else if !line_is_blank(self.data.current_line.as_str()) && self.support_level.at_least(
            SupportLevel::Line,
        ) {
            self.code = self.data.current_line.clone();
        } else {
            self.code = String::new();
        }
        Ok(())
    }

    fn add_boilerplate(&mut self) -> (r: Result<(), SniprunError>) {
        Ok(())
    }

    fn build(&mut self) -> (r: Artifact) {
        Artifact { path: self.main_file_path.clone(), content: self.code.clone() }
    }

    fn execution_command(&self) -> (r: ExecutionRequest) {
        let mut args: Vec<String> = Vec::new();
        args.push(self.main_file_path.clone());
        let n: usize = self.data.cli_args.len();
        let mut i: usize = 0;
        while i < n
            invariant
                n == self.data.cli_args@.len(),
                0 <= i <= n,
                args.deep_view() == seq![self.main_file_path@] + self.data.cli_args.deep_view()
                    .subrange(0, i as int),
            decreases n - i,
        {
            let ghost pre = args.deep_view();
            let x = self.data.cli_args[i].clone();
            proof {
                assert(x.deep_view() == self.data.cli_args.deep_view()[i as int]);
            }
            args.push(x);
            i = i + 1;
            proof {
                assert(args.deep_view() =~= pre.push(x.deep_view()));
                assert(args.deep_view() =~= seq![self.main_file_path@]
                    + self.data.cli_args.deep_view().subrange(0, i as int));
            }
        }
        proof {
            assert(args.deep_view() =~= seq![self.artifact_path_spec()]
                + self.data_spec().cli_args);
        }
        ExecutionRequest { program: String::from_str("perl"), args }
    }
}

} // verus!
