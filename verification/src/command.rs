//! The command runner: joins argument tokens into one input string and
//! dispatches by command name to the codec, wrapping the result in an output
//! record with one labeled range that covers the whole text.

use vstd::prelude::*;
use vstd::string::StrSliceExecFns;
use vstd::utf8::encode_utf8;
use crate::codec::{decode, decode_error_kind, decode_ok, decoded_text, encode, base64_of, ErrorKind};

verus! {

/// A labeled range of the output text, in bytes, for display.
#[derive(Debug)]
pub struct OutputSection {
    pub range_start: usize,
    pub range_end: usize,
    pub label: String,
}

/// A command's output: the produced text and its display sections.
#[derive(Debug)]
pub struct OutputRecord {
    pub text: String,
    pub sections: Vec<OutputSection>,
}

/// True when the record carries exactly one section that spans the whole
/// text (in bytes) under the given label.
pub open spec fn labeled_whole(rec: OutputRecord, label: Seq<char>) -> bool {
    &&& rec.sections@.len() == 1
    &&& rec.sections@[0].range_start == 0
    &&& rec.sections@[0].range_end == encode_utf8(rec.text@).len()
    &&& rec.sections@[0].label@ == label
}

/// The argument tokens joined with single-space separators.
pub open spec fn joined_with_spaces(args: Seq<Seq<char>>) -> Seq<char>
    decreases args.len(),
{
    if args.len() == 0 {
        Seq::empty()
    } else if args.len() == 1 {
        args[0]
    } else {
        joined_with_spaces(args.drop_last()) + seq![' '] + args.last()
    }
}

fn join_args(args: &Vec<String>) -> (r: String)
    ensures
        r@ == joined_with_spaces(args.deep_view()),
{
    let mut out = String::new();
    let mut i: usize = 0;
    while i < args.len()
        invariant
            0 <= i <= args@.len(),
            out@ == joined_with_spaces(args.deep_view().take(i as int)),
        decreases args@.len() - i,
    {
        if i > 0 {
            out.append(" ");
        }
        out.append(args[i].as_str());
        proof {
            reveal_strlit(" ");
            let dv = args.deep_view();
            assert(dv.take(i as int + 1).drop_last() =~= dv.take(i as int));
            assert(dv.take(i as int + 1).last() == args@[i as int]@);
            assert(" "@ =~= seq![' ']);
        }
        i += 1;
    }
    proof {
        assert(args.deep_view().take(args@.len() as int) =~= args.deep_view());
    }
    out
}

fn str_eq(a: &str, b: &str) -> (r: bool)
    ensures
        r == (a@ == b@),
{
    let sa = a.to_owned();
    let sb = b.to_owned();
    sa == sb
}

fn whole_text_record(text: String, label: &str) -> (r: OutputRecord)
    requires
        encode_utf8(text@).len() <= usize::MAX,
    ensures
        r.text == text,
        labeled_whole(r, label@),
{
    let end = text.as_str().len();
    let mut sections: Vec<OutputSection> = Vec::new();
    sections.push(OutputSection { range_start: 0, range_end: end, label: label.to_owned() });
    OutputRecord { text, sections }
}

/// Runs one command. An empty argument list fails with `NoInput` before the
/// codec is reached; a name other than `encode` or `decode` fails with
/// `UnknownCommand`, carrying that name. Otherwise the tokens are joined
/// with single spaces and handed to the codec, and the output carries one
/// section spanning the whole text, labeled `Encoded Output` or
/// `Decoded Output`.
pub fn run(command: &str, args: &Vec<String>) -> (r: Result<OutputRecord, ErrorKind>)
    requires
        command@ == "encode"@ ==> encode_utf8(joined_with_spaces(args.deep_view())).len()
            < usize::MAX / 2,
    ensures
        args@.len() == 0 ==> r == Err::<OutputRecord, ErrorKind>(ErrorKind::NoInput),
        args@.len() > 0 && command@ == "encode"@ ==> (r matches Ok(rec) && {
            &&& rec.text@ == base64_of(encode_utf8(joined_with_spaces(args.deep_view())))
            &&& labeled_whole(rec, "Encoded Output"@)
        }),
        args@.len() > 0 && command@ == "decode"@ ==> ({
            let input = joined_with_spaces(args.deep_view());
            &&& (r is Ok <==> decode_ok(input))
            &&& (r matches Ok(rec) ==> rec.text@ == decoded_text(input) && labeled_whole(
                rec,
                "Decoded Output"@,
            ))
            &&& (r matches Err(e) ==> decode_error_kind(input, e))
        }),
        args@.len() > 0 && command@ != "encode"@ && command@ != "decode"@ ==> (r matches Err(e)
            && e matches ErrorKind::UnknownCommand(name) && name@ == command@),
{
    proof {
        reveal_strlit("encode");
        reveal_strlit("decode");
        // The two command names differ in their first character, so at most
        // one dispatch branch can apply.
        assert("encode"@[0] == 'e' && "decode"@[0] == 'd');
    }
    if args.len() == 0 {
        return Err(ErrorKind::NoInput);
    }
    let input = join_args(args);
    if str_eq(command, "encode") {
        let encoded = encode(input.as_str());
        proof {
            // The encoded text is ASCII, so its byte length is its character
            // count, which the codec bounds by four characters for every
            // three input bytes.
            crate::classifier::lemma_base64_chars_ascii(encoded@);
            let n = encode_utf8(input@).len() as int;
            let m = usize::MAX as int;
            vstd::arithmetic::div_mod::lemma_div_is_ordered(n + 2, m / 2 + 1, 3);
            assert(4 * ((n + 2) / 3) <= 4 * ((m / 2 + 1) / 3));
            assert(4 * ((m / 2 + 1) / 3) <= m);
        }
        Ok(whole_text_record(encoded, "Encoded Output"))
    } else if str_eq(command, "decode") {
        match decode(input.as_str()) {
            Ok(text) => Ok(whole_text_record(text, "Decoded Output")),
            Err(e) => Err(e),
        }
    } else {
        Err(ErrorKind::UnknownCommand(command.to_owned()))
    }
}

/// The argument auto-completion entry point: part of the outward contract,
/// with no logic of its own — it always returns an empty suggestion list.
pub fn complete_slash_command_argument(_command: &str, _args: &Vec<String>) -> (r: Vec<String>)
    ensures
        r@.len() == 0,
{
    Vec::new()
}

} // verus!
