//! The console host device: buffered character output and queued input.

use vstd::prelude::*;
use vstd::string::StringExecFns;

use crate::text::{chars_string, hex4_chars, push_hex4, str_chars};

verus! {

/// The abstract state of a console: what has been printed, what input
/// is still queued, the text colour and the cursor position.
#[verifier::ext_equal]
pub ghost struct ConsoleView {
    pub output: Seq<char>,
    pub input: Seq<char>,
    pub color: u16,
    pub cursor_x: u16,
    pub cursor_y: u16,
}

/// A console with buffered output, queued input, a text colour and a
/// cursor position. Characters printed here are only recorded; echoing
/// them to a real terminal is the driver's business.
pub struct Console {
    output: Vec<char>,
    input: Vec<char>,
    color: u16,
    cursor_x: u16,
    cursor_y: u16,
}

impl View for Console {
    type V = ConsoleView;

    closed spec fn view(&self) -> ConsoleView {
        ConsoleView {
            output: self.output@,
            input: self.input@,
            color: self.color,
            cursor_x: self.cursor_x,
            cursor_y: self.cursor_y,
        }
    }
}

/// The console state after one character is printed: the character is
/// recorded and the cursor advances, wrapping modulo 2^16; a newline
/// returns the cursor to column zero of the next row.
pub open spec fn console_after_char(v: ConsoleView, c: char) -> ConsoleView {
    if c == '\n' {
        ConsoleView {
            output: v.output.push(c),
            cursor_x: 0,
            cursor_y: ((v.cursor_y + 1) % 0x10000) as u16,
            ..v
        }
    } else {
        ConsoleView { output: v.output.push(c), cursor_x: ((v.cursor_x + 1) % 0x10000) as u16, ..v }
    }
}

/// The console state after each character of `s` is printed in order.
pub open spec fn console_after_chars(v: ConsoleView, s: Seq<char>) -> ConsoleView
    decreases s.len(),
{
    if s.len() == 0 {
        v
    } else {
        console_after_chars(console_after_char(v, s[0]), s.skip(1))
    }
}

/// The index of the first newline in `s`, or -1 if there is none.
pub open spec fn first_newline(s: Seq<char>) -> int
    decreases s.len(),
{
    if s.len() == 0 {
        -1
    } else if s[0] == '\n' {
        0
    } else if first_newline(s.skip(1)) < 0 {
        -1
    } else {
        1 + first_newline(s.skip(1))
    }
}

impl Console {
    /// A fresh console: no output, no queued input, white-on-black
    /// colour, cursor at the origin.
    pub fn new() -> (r: Console)
        ensures
            r@ == (ConsoleView {
                output: Seq::<char>::empty(),
                input: Seq::<char>::empty(),
                color: 7,
                cursor_x: 0,
                cursor_y: 0,
            }),
    {
        Console { output: Vec::new(), input: Vec::new(), color: 7, cursor_x: 0, cursor_y: 0 }
    }

    /// Records one character of output and advances the cursor.
    pub fn print_char(&mut self, c: char)
        ensures
            final(self)@ == console_after_char(old(self)@, c),
    {
        self.output.push(c);
        if c == '\n' {
            self.cursor_x = 0;
            self.cursor_y = self.cursor_y.wrapping_add(1);
        } else {
            self.cursor_x = self.cursor_x.wrapping_add(1);
        }
        proof {
            assert(final(self)@ =~= console_after_char(old(self)@, c));
        }
    }

    /// Prints each character of `s` in order.
    pub fn print_str(&mut self, s: &str)
        ensures
            final(self)@ == console_after_chars(old(self)@, s@),
    {
        let cs = str_chars(s);
        let mut i: usize = 0;
        proof {
            assert(s@.skip(0) =~= s@);
        }
        while i < cs.len()
            invariant
                i <= cs@.len(),
                cs@ == s@,
                console_after_chars(old(self)@, s@) == console_after_chars(
                    self@,
                    s@.skip(i as int),
                ),
            decreases cs@.len() - i,
        {
            let c = cs[i];
            self.print_char(c);
            proof {
                assert(s@.skip(i as int).skip(1) =~= s@.skip(i + 1));
            }
            i += 1;
        }
    }

    /// Prints the value as `0x` followed by four uppercase hexadecimal
    /// digits.
    pub fn print_hex(&mut self, value: u16)
        ensures
            final(self)@ == console_after_chars(old(self)@, seq!['0', 'x'] + hex4_chars(value)),
    {
        let mut s = String::new();
        proof {
            reveal_strlit("0x");
        }
        s.append("0x");
        push_hex4(&mut s, value);
        proof {
            assert(s@ =~= seq!['0', 'x'] + hex4_chars(value));
        }
        self.print_str(s.as_str());
    }

    /// Takes the next queued input character, front first.
    pub fn read_char(&mut self) -> (r: Option<char>)
        ensures
            old(self)@.input.len() == 0 ==> r is None && final(self)@ == old(self)@,
            old(self)@.input.len() > 0 ==> r == Some(old(self)@.input[0]) && final(self)@ == (
            ConsoleView { input: old(self)@.input.skip(1), ..old(self)@ }),
    {
        if self.input.len() == 0 {
            None
        } else {
            let c = self.input.remove(0);
            proof {
                assert(self@.input =~= old(self)@.input.skip(1));
                assert(final(self)@ =~= (ConsoleView { input: old(self)@.input.skip(1), ..old(
                    self,
                )@ }));
            }
            Some(c)
        }
    }

    /// Takes queued input up to the first newline. With a newline
    /// queued, the characters before it are returned and it is consumed
    /// with them; with input but no newline, all of it is returned;
    /// with no input at all, `None`.
    pub fn read_line(&mut self) -> (r: Option<String>)
        ensures
            ({
                let input = old(self)@.input;
                let nl = first_newline(input);
                if input.len() == 0 {
                    r is None && final(self)@ == old(self)@
                } else if nl >= 0 {
                    r matches Some(line) && line@ == input.take(nl) && final(self)@ == (ConsoleView {
                        input: input.skip(nl + 1),
                        ..old(self)@
                    })
                } else {
                    r matches Some(line) && line@ == input && final(self)@ == (ConsoleView {
                        input: Seq::<char>::empty(),
                        ..old(self)@
                    })
                }
            }),
    {
        let ghost input0 = self@.input;
        let mut line: Vec<char> = Vec::new();
        let ghost mut k: int = 0;
        proof {
            assert(input0.skip(0) =~= input0);
        }
        loop
            invariant
                input0 == old(self)@.input,
                0 <= k <= input0.len(),
                self@ == (ConsoleView { input: input0.skip(k), ..old(self)@ }),
                line@ == input0.take(k),
                first_newline(input0) == if first_newline(input0.skip(k)) < 0 {
                    -1
                } else {
                    k + first_newline(input0.skip(k))
                },
                forall|j: int| 0 <= j < k ==> input0[j] != '\n',
            decreases input0.len() - k,
        {
            let ghost rest = input0.skip(k);
            proof {
                assert(self@.input == rest);
            }
            match self.read_char() {
                None => {
                    proof {
                        assert(rest.len() == 0);
                        assert(k == input0.len());
                        assert(first_newline(rest) == -1);
                        assert(first_newline(input0) < 0);
                        assert(input0.take(k) =~= input0);
                        assert(self@ =~= (ConsoleView {
                            input: Seq::<char>::empty(),
                            ..old(self)@
                        }));
                    }
                    if line.len() == 0 {
                        proof {
                            assert(input0.len() == 0);
                            assert(self@.input =~= old(self)@.input);
                            assert(self@ =~= old(self)@);
                        }
                        return None;
                    } else {
                        return Some(chars_string(&line));
                    }
                },
                Some(c) => {
                    proof {
                        assert(rest.len() > 0);
                        assert(k < input0.len());
                        assert(rest[0] == input0[k]);
                        assert(rest.skip(1) =~= input0.skip(k + 1));
                    }
                    if c == '\n' {
                        proof {
                            assert(first_newline(rest) == 0);
                            assert(line@ == input0.take(first_newline(input0)));
                            assert(self@ =~= (ConsoleView {
                                input: input0.skip(first_newline(input0) + 1),
                                ..old(self)@
                            }));
                        }
                        return Some(chars_string(&line));
                    }
                    line.push(c);
                    proof {
                        assert(rest[0] != '\n');
                        assert(input0.take(k).push(c) =~= input0.take(k + 1));
                        k = k + 1;
                    }
                },
            }
        }
    }

    /// Queues each character of `input` behind any input already
    /// waiting.
    pub fn queue_input(&mut self, input: &str)
        ensures
            final(self)@ == (ConsoleView { input: old(self)@.input + input@, ..old(self)@ }),
    {
        let cs = str_chars(input);
        let mut i: usize = 0;
        while i < cs.len()
            invariant
                i <= cs@.len(),
                cs@ == input@,
                self@ == (ConsoleView {
                    input: old(self)@.input + input@.take(i as int),
                    ..old(self)@
                }),
            decreases cs@.len() - i,
        {
            let c = cs[i];
            self.input.push(c);
            proof {
                assert((old(self)@.input + input@.take(i as int)).push(c) =~= old(self)@.input
                    + input@.take(i + 1));
                assert(self@ =~= (ConsoleView {
                    input: old(self)@.input + input@.take(i + 1),
                    ..old(self)@
                }));
            }
            i += 1;
        }
        proof {
            assert(input@.take(input@.len() as int) =~= input@);
        }
    }

    /// Everything printed so far, as one string.
    pub fn get_output(&self) -> (r: String)
        ensures
            r@ == self@.output,
    {
        chars_string(&self.output)
    }

    /// Discards the recorded output and homes the cursor.
    pub fn clear_output(&mut self)
        ensures
            final(self)@ == (ConsoleView {
                output: Seq::<char>::empty(),
                cursor_x: 0,
                cursor_y: 0,
                ..old(self)@
            }),
    {
        self.output.clear();
        self.cursor_x = 0;
        self.cursor_y = 0;
    }

    /// Sets the text colour.
    pub fn set_color(&mut self, color: u16)
        ensures
            final(self)@ == (ConsoleView { color: color, ..old(self)@ }),
    {
        self.color = color;
    }
}

} // verus!
