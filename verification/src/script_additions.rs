//! Custom chat commands: the declaration record and the exact script
//! fragments its registration generates. Writing the fragments into the
//! pack's script files is the embedding application's work.

use crate::text::{dec_digits, join_texts, push_join, render_u64, texts_view};
use crate::vio::IntoText;
use vstd::prelude::*;
use vstd::string::StringExecFns;

verus! {

/// The runtime type of one command argument.
#[derive(Clone, Copy, Debug)]
pub enum CustomCommandArg {
    Num,
    Str,
}

/// The quoted type name an argument is checked against.
pub open spec fn arg_type_text(a: CustomCommandArg) -> Seq<char> {
    match a {
        CustomCommandArg::Str => "\"string\""@,
        CustomCommandArg::Num => "\"number\""@,
    }
}

/// One custom chat command: its prefix, name, handler path and argument
/// types.
#[derive(Clone, Debug)]
pub struct CustomCommand {
    pub prefix: String,
    pub name: String,
    pub path: String,
    pub args: Vec<CustomCommandArg>,
}

impl CustomCommand {
    pub fn new<A: IntoText, B: IntoText, C: IntoText>(
        prefix: A,
        name: B,
        path: C,
        args: Vec<CustomCommandArg>,
    ) -> (r: Self)
        ensures
            r.prefix@ == prefix.chars(),
            r.name@ == name.chars(),
            r.path@ == path.chars(),
            r.args@ == args@,
    {
        Self { prefix: prefix.to_text(), name: name.to_text(), path: path.to_text(), args }
    }

    /// The full chat prefix the command is invoked under.
    pub fn command_prefix(&self) -> (r: String)
        ensures
            r@ == self.prefix@ + self.name@,
    {
        let mut s = self.prefix.clone();
        s.append(self.name.as_str());
        assert(s@ =~= self.prefix@ + self.name@);
        s
    }

    /// The argument list handed to the handler: one positional reference
    /// per argument, comma separated.
    pub fn args_text(&self) -> (r: String)
        ensures
            r@ == join_texts(arg_refs(self.args@.len() as nat), ","@),
    {
        let mut parts: Vec<String> = Vec::new();
        let mut i: usize = 0;
        while i < self.args.len()
            invariant
                i <= self.args@.len(),
                parts@.len() == i,
                forall|j: int|
                    0 <= j < i ==> (#[trigger] parts@[j])@ == "args["@ + dec_digits(j as nat)
                        + seq![']'],
            decreases self.args@.len() - i,
        {
            proof {
                reveal_strlit("args[");
            }
            let mut t = String::new();
            t.append("args[");
            let n = render_u64(i as u64);
            t.append(n.as_str());
            crate::text::push_char(&mut t, ']');
            assert(t@ =~= "args["@ + dec_digits(i as nat) + seq![']']);
            parts.push(t);
            i = i + 1;
        }
        proof {
            assert(texts_view(parts@) =~= arg_refs(self.args@.len() as nat));
        }
        let mut s = String::new();
        push_join(&mut s, &parts, ",");
        assert(s@ =~= join_texts(arg_refs(self.args@.len() as nat), ","@));
        s
    }

    /// The argument type list the handler validates against.
    pub fn arg_types_text(&self) -> (r: String)
        ensures
            r@ == seq!['['] + join_texts(arg_type_texts(self.args@), ","@) + seq![']'],
    {
        let mut parts: Vec<String> = Vec::new();
        let mut i: usize = 0;
        while i < self.args.len()
            invariant
                i <= self.args@.len(),
                parts@.len() == i,
                forall|j: int| 0 <= j < i ==> (#[trigger] parts@[j])@ == arg_type_text(self.args@[j]),
            decreases self.args@.len() - i,
        {
            proof {
                reveal_strlit("\"string\"");
                reveal_strlit("\"number\"");
            }
            let t: String = match self.args[i] {
                CustomCommandArg::Str => String::from_str("\"string\""),
                CustomCommandArg::Num => String::from_str("\"number\""),
            };
            parts.push(t);
            i = i + 1;
        }
        proof {
            assert(texts_view(parts@) =~= arg_type_texts(self.args@));
        }
        let mut s = String::new();
        crate::text::push_char(&mut s, '[');
        push_join(&mut s, &parts, ",");
        crate::text::push_char(&mut s, ']');
        assert(s@ =~= seq!['['] + join_texts(arg_type_texts(self.args@), ","@) + seq![']']);
        s
    }

    /// The import line the pack's main script gains for this command.
    pub fn import_line(&self) -> (r: String)
        ensures
            r@ == "\nimport \"./viogen_commands/"@ + self.name@ + seq!['"'],
    {
        proof {
            reveal_strlit("\nimport \"./viogen_commands/");
        }
        let mut s = String::new();
        s.append("\nimport \"./viogen_commands/");
        s.append(self.name.as_str());
        crate::text::push_char(&mut s, '"');
        assert(s@ =~= "\nimport \"./viogen_commands/"@ + self.name@ + seq!['"']);
        s
    }
}

/// The positional references `args[0]`, `args[1]`, ... up to `n`.
pub open spec fn arg_refs(n: nat) -> Seq<Seq<char>> {
    Seq::new(n, |i: int| "args["@ + dec_digits(i as nat) + seq![']'])
}

/// The quoted type names of an argument list, in order.
pub open spec fn arg_type_texts(args: Seq<CustomCommandArg>) -> Seq<Seq<char>> {
    Seq::new(args.len(), |i: int| arg_type_text(args[i]))
}

impl crate::vio::Buildable for CustomCommand {

}

} // verus!
