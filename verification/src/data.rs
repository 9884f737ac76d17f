use vstd::prelude::*;

verus! {

/// Mathematical model of a [`DataHolder`]: every text field as a sequence of
/// characters, and the extra command-line arguments as a sequence of such
/// sequences.
pub ghost struct DataHolderView {
    pub current_line: Seq<char>,
    pub current_bloc: Seq<char>,
    pub work_dir: Seq<char>,
    pub cli_args: Seq<Seq<char>>,
}

/// Immutable-per-run snapshot of the user's editing context.
///
/// Constructed once per run by the caller and only read by backends, which
/// clone it if they need an owned copy. `current_line` is the line under the
/// cursor, `current_bloc` the selected block, `work_dir` the shared cache
/// directory, and `cli_args` the extra arguments passed on to the external
/// tool after the artifact path.
pub struct DataHolder {
    pub current_line: String,
    pub current_bloc: String,
    pub work_dir: String,
    pub cli_args: Vec<String>,
}

impl View for DataHolder {
    type V = DataHolderView;

    open spec fn view(&self) -> DataHolderView {
        DataHolderView {
            current_line: self.current_line@,
            current_bloc: self.current_bloc@,
            work_dir: self.work_dir@,
            cli_args: self.cli_args.deep_view(),
        }
    }
}

impl DataHolder {
    /// An empty editing context: no line, no block, no working directory, no
    /// extra arguments.
    pub fn new() -> (r: DataHolder)
        ensures
            r@.current_line == Seq::<char>::empty(),
            r@.current_bloc == Seq::<char>::empty(),
            r@.work_dir == Seq::<char>::empty(),
            r@.cli_args == Seq::<Seq<char>>::empty(),
    {
        let r = DataHolder {
            current_line: String::new(),
            current_bloc: String::new(),
            work_dir: String::new(),
            cli_args: Vec::new(),
        };
        proof {
            assert(r@.cli_args =~= Seq::<Seq<char>>::empty());
        }
        r
    }
}

impl Clone for DataHolder {
    /// An owned copy with the same model: backends clone the context they
    /// were bound to instead of sharing it.
    fn clone(&self) -> (r: Self)
        ensures
            r@ == self@,
    {
        let r = DataHolder {
            current_line: self.current_line.clone(),
            current_bloc: self.current_bloc.clone(),
            work_dir: self.work_dir.clone(),
            cli_args: self.cli_args.clone(),
        };
        proof {
            assert(r.cli_args.deep_view() =~= self.cli_args.deep_view());
        }
        r
    }
}

} // verus!
