//! An external command line: a program and its arguments, built up step by step.

use vstd::prelude::*;

verus! {

/// A program name followed by its arguments.
#[derive(Clone, Default, PartialEq, Eq)]
pub struct CliCommand {
    program: String,
    args: Vec<String>,
}

pub open spec fn strings_view(v: Seq<String>) -> Seq<Seq<char>> {
    v.map_values(|s: String| s@)
}

/// Words separated by single spaces.
pub open spec fn space_joined(words: Seq<Seq<char>>) -> Seq<char>
    decreases words.len(),
{
    if words.len() == 0 {
        seq![]
    } else if words.len() == 1 {
        words[0]
    } else {
        space_joined(words.drop_last()) + seq![' '] + words.last()
    }
}

impl View for CliCommand {
    type V = Seq<Seq<char>>;

    /// The whole argument vector, program first.
    closed spec fn view(&self) -> Seq<Seq<char>> {
        seq![self.program@] + strings_view(self.args@)
    }
}

impl CliCommand {
    pub fn new(program: &str) -> (r: Self)
        ensures
            r@ == seq![program@],
    {
        let r = CliCommand { program: String::from_str(program), args: Vec::new() };
        assert(r@ =~= seq![program@]);
        r
    }

    /// Appends one argument.
    pub fn arg(self, arg: &str) -> (r: Self)
        ensures
            r@ == self@.push(arg@),
    {
        let mut r = self;
        r.args.push(String::from_str(arg));
        assert(strings_view(r.args@) =~= strings_view(self.args@).push(arg@));
        assert(r@ =~= self@.push(arg@));
        r
    }

    /// Appends the argument if there is one.
    pub fn arg_opt(self, arg: Option<&str>) -> (r: Self)
        ensures
            arg matches Some(a) ==> r@ == self@.push(a@),
            arg is None ==> r@ == self@,
    {
        match arg {
            Some(a) => self.arg(a),
            None => self,
        }
    }

    /// Appends the arguments in order.
    pub fn args(self, args: &[&str]) -> (r: Self)
        ensures
            r@ == self@ + args@.map_values(|a: &str| a@),
    {
        let mut r = self;
        let mut i: usize = 0;
        while i < args.len()
            invariant
                i <= args@.len(),
                r@ == self@ + args@.subrange(0, i as int).map_values(|a: &str| a@),
            decreases args@.len() - i,
        {
            r = r.arg(args[i]);
            assert(args@.subrange(0, i + 1).map_values(|a: &str| a@) =~= args@.subrange(
                0,
                i as int,
            ).map_values(|a: &str| a@).push(args@[i as int]@));
            i = i + 1;
        }
        assert(args@.subrange(0, i as int) =~= args@);
        r
    }

    /// The program name.
    pub fn program(&self) -> (r: &str)
        ensures
            r@ == self@[0],
    {
        self.program.as_str()
    }

    /// The arguments after the program name.
    pub fn arguments(&self) -> (r: &Vec<String>)
        ensures
            strings_view(r@) == self@.drop_first(),
    {
        assert(self@.drop_first() =~= strings_view(self.args@));
        &self.args
    }

    /// The whole argument vector, program first.
    pub fn argv(&self) -> (r: Vec<String>)
        ensures
            strings_view(r@) == self@,
    {
        let mut r: Vec<String> = Vec::new();
        r.push(self.program.clone());
        let mut i: usize = 0;
        while i < self.args.len()
            invariant
                i <= self.args@.len(),
                strings_view(r@) == seq![self.program@] + strings_view(self.args@.subrange(0, i as int)),
            decreases self.args@.len() - i,
        {
            let ghost r0 = r@;
            let a = self.args[i].clone();
            r.push(a);
            assert(strings_view(r@) =~= strings_view(r0).push(self.args@[i as int]@));
            assert(strings_view(self.args@.subrange(0, i + 1)) =~= strings_view(
                self.args@.subrange(0, i as int),
            ).push(self.args@[i as int]@));
            assert(strings_view(r@) =~= seq![self.program@] + strings_view(
                self.args@.subrange(0, i + 1),
            ));
            i = i + 1;
        }
        assert(self.args@.subrange(0, i as int) =~= self.args@);
        r
    }

    /// The command line as one string, words separated by single spaces.
    pub fn to_display_string(&self) -> (r: String)
        ensures
            r@ == space_joined(self@),
    {
        let words = self.argv();
        let mut r = String::new();
        let mut i: usize = 0;
        while i < words.len()
            invariant
                i <= words@.len(),
                strings_view(words@) == self@,
                r@ == space_joined(strings_view(words@.subrange(0, i as int))),
            decreases words@.len() - i,
        {
            let ghost before = strings_view(words@.subrange(0, i as int));
            if i > 0 {
                r.append(" ");
            }
            r.append(words[i].as_str());
            proof {
                reveal_strlit(" ");
                let after = strings_view(words@.subrange(0, i + 1));
                assert(after.drop_last() =~= before);
                assert(after.last() == words@[i as int]@);
                if i == 0 {
                    assert(r@ =~= space_joined(after));
                } else {
                    assert(r@ =~= space_joined(after));
                }
            }
            i = i + 1;
        }
        assert(words@.subrange(0, i as int) =~= words@);
        r
    }
}

} // verus!
