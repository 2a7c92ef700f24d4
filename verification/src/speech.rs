//! The command text for speaking a translation through the system's speech
//! synthesizer.

use vstd::prelude::*;
use vstd::string::*;
use crate::text::{chars_of, push_char};

verus! {

/// What a character of the text becomes inside the quoted argument: a
/// quote is doubled, a line feed becomes a space.
pub open spec fn spoken_char(c: char) -> Seq<char> {
    if c == '\'' {
        seq!['\'', '\'']
    } else if c == '\n' {
        seq![' ']
    } else {
        seq![c]
    }
}

/// The text as it stands inside the quoted argument.
pub open spec fn spoken_text(text: Seq<char>) -> Seq<char>
    decreases text.len(),
{
    if text.len() == 0 {
        Seq::empty()
    } else {
        spoken_text(text.drop_last()) + spoken_char(text.last())
    }
}

/// The script that loads the speech assembly and speaks the text.
pub open spec fn speech_script_of(text: Seq<char>) -> Seq<char> {
    "Add-Type -AssemblyName System.Speech; $synth = New-Object System.Speech.Synthesis.SpeechSynthesizer; $synth.Speak('"@
        + spoken_text(text) + "');"@
}

/// Builds the script that speaks a text, with the text quoted safely.
pub fn speech_script(text: &str) -> (script: String)
    ensures
        script@ == speech_script_of(text@),
{
    let v = chars_of(text);
    let mut script =
        "Add-Type -AssemblyName System.Speech; $synth = New-Object System.Speech.Synthesis.SpeechSynthesizer; $synth.Speak('".to_owned();
    let ghost head = script@;
    let mut i: usize = 0;
    while i < v.len()
        invariant
            i <= v.len(),
            v@ == text@,
            script@ == head + spoken_text(v@.take(i as int)),
        decreases v.len() - i,
    {
        proof {
            assert(v@.take(i + 1).drop_last() =~= v@.take(i as int));
        }
        let ghost before = script@;
        let c = v[i];
        if c == '\'' {
            push_char(&mut script, '\'');
            push_char(&mut script, '\'');
        } else if c == '\n' {
            push_char(&mut script, ' ');
        } else {
            push_char(&mut script, c);
        }
        proof {
            assert(script@ =~= before + spoken_char(c));
            assert(script@ =~= head + spoken_text(v@.take(i + 1)));
        }
        i = i + 1;
    }
    proof {
        assert(v@.take(v@.len() as int) =~= v@);
    }
    script.append("');");
    script
}

} // verus!
