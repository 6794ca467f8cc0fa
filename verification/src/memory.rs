//! The memory unit: linear byte storage with little-endian word access.

use vstd::prelude::*;
use vstd::string::StringExecFns;

use crate::text::{
    byte_ascii,
    byte_ascii_char,
    chars_string,
    hex2_chars,
    hex4_chars,
    push_hex2,
    push_hex4,
};
use crate::VmError;

verus! {

/// Linear byte-addressed storage with range-checked byte and word
/// accessors. Words are little-endian: the low byte of a word at
/// address `a` sits at `a`, the high byte at `a + 1`. The unit holds no
/// privilege logic; an index past the end is reported as `OutOfRange`.
pub struct Memory {
    data: Vec<u8>,
    size: usize,
}

impl View for Memory {
    type V = Seq<u8>;

    closed spec fn view(&self) -> Seq<u8> {
        self.data@
    }
}

/// The little-endian word stored at address `a`.
pub open spec fn word_at(m: Seq<u8>, a: int) -> u16 {
    ((m[a + 1] as u16) << 8) | (m[a] as u16)
}

/// The storage after the little-endian word `v` is written at `a`.
pub open spec fn word_write(m: Seq<u8>, a: int, v: u16) -> Seq<u8> {
    m.update(a, (v & 0xFF) as u8).update(a + 1, (v >> 8) as u8)
}

/// Whether every word of `ws`, laid out from address `a` upward in
/// two-byte strides, fits inside storage of length `len`.
pub open spec fn words_fit(len: int, ws: Seq<u16>, a: int) -> bool
    decreases ws.len(),
{
    ws.len() == 0 || (0 <= a && a + 1 < len && words_fit(len, ws.skip(1), a + 2))
}

/// The storage after the words of `ws` are written little-endian from
/// address `a` upward. Writing stops at the first word that does not
/// fit, leaving the earlier words in place.
pub open spec fn words_written(m: Seq<u8>, ws: Seq<u16>, a: int) -> Seq<u8>
    decreases ws.len(),
{
    if ws.len() == 0 {
        m
    } else if 0 <= a && a + 1 < m.len() {
        words_written(word_write(m, a, ws[0]), ws.skip(1), a + 2)
    } else {
        m
    }
}

impl Memory {
    /// Fresh storage of `size` bytes, all zero.
    pub fn new(size: usize) -> (r: Memory)
        ensures
            r.wf(),
            r@ == Seq::new(size as nat, |i: int| 0u8),
    {
        let mut data: Vec<u8> = Vec::new();
        let mut i: usize = 0;
        while i < size
            invariant
                i <= size,
                data@ =~= Seq::new(i as nat, |j: int| 0u8),
            decreases size - i,
        {
            data.push(0);
            i += 1;
        }
        proof {
            assert(data@ =~= Seq::new(size as nat, |i: int| 0u8));
        }
        Memory { data, size }
    }

    /// The declared size matches the storage actually held.
    pub closed spec fn wf(&self) -> bool {
        self.data@.len() == self.size
    }

    /// The number of bytes of storage.
    pub fn size(&self) -> (r: usize)
        requires
            self.wf(),
        ensures
            r == self@.len(),
    {
        self.size
    }

    /// Reads the byte at `address`; fails with `OutOfRange` past the end.
    pub fn read_byte(&self, address: usize) -> (r: Result<u8, VmError>)
        requires
            self.wf(),
        ensures
            r == if address < self@.len() {
                Ok::<u8, VmError>(self@[address as int])
            } else {
                Err::<u8, VmError>(VmError::OutOfRange)
            },
    {
        if address >= self.size {
            return Err(VmError::OutOfRange);
        }
        Ok(self.data[address])
    }

    /// Writes the byte at `address`; fails with `OutOfRange` past the
    /// end, leaving storage unchanged.
    pub fn write_byte(&mut self, address: usize, value: u8) -> (r: Result<(), VmError>)
        requires
            old(self).wf(),
        ensures
            final(self).wf(),
            r == if address < old(self)@.len() {
                Ok::<(), VmError>(())
            } else {
                Err::<(), VmError>(VmError::OutOfRange)
            },
            final(self)@ == if address < old(self)@.len() {
                old(self)@.update(address as int, value)
            } else {
                old(self)@
            },
    {
        if address >= self.size {
            return Err(VmError::OutOfRange);
        }
        self.data[address] = value;
        Ok(())
    }

    /// Reads the little-endian word at `address`; both of its bytes must
    /// lie inside storage.
    pub fn read_word(&self, address: usize) -> (r: Result<u16, VmError>)
        requires
            self.wf(),
        ensures
            r == if address + 1 < self@.len() {
                Ok::<u16, VmError>(word_at(self@, address as int))
            } else {
                Err::<u16, VmError>(VmError::OutOfRange)
            },
    {
        if address >= self.size || address + 1 >= self.size {
            return Err(VmError::OutOfRange);
        }
        let low = self.data[address] as u16;
        let high = self.data[address + 1] as u16;
        Ok((high << 8) | low)
    }

    /// Writes the little-endian word `value` at `address`; both of its
    /// bytes must lie inside storage, else nothing changes.
    pub fn write_word(&mut self, address: usize, value: u16) -> (r: Result<(), VmError>)
        requires
            old(self).wf(),
        ensures
            final(self).wf(),
            r == if address + 1 < old(self)@.len() {
                Ok::<(), VmError>(())
            } else {
                Err::<(), VmError>(VmError::OutOfRange)
            },
            final(self)@ == if address + 1 < old(self)@.len() {
                word_write(old(self)@, address as int, value)
            } else {
                old(self)@
            },
    {
        if address >= self.size || address + 1 >= self.size {
            return Err(VmError::OutOfRange);
        }
        self.data[address] = (value & 0xFF) as u8;
        self.data[address + 1] = (value >> 8) as u8;
        Ok(())
    }

    /// Writes each word of `program` little-endian at `start_address`,
    /// `start_address + 2`, and so on, failing with `OutOfRange` at the
    /// first word that does not fit (earlier words stay written).
    pub fn load_program(&mut self, program: &[u16], start_address: usize) -> (r: Result<
        (),
        VmError,
    >)
        requires
            old(self).wf(),
        ensures
            final(self).wf(),
            final(self)@.len() == old(self)@.len(),
            r == if words_fit(old(self)@.len() as int, program@, start_address as int) {
                Ok::<(), VmError>(())
            } else {
                Err::<(), VmError>(VmError::OutOfRange)
            },
            final(self)@ == words_written(old(self)@, program@, start_address as int),
    {
        let mut addr = start_address;
        let mut i: usize = 0;
        let ghost m0 = self@;
        proof {
            assert(program@.skip(0) =~= program@);
        }
        while i < program.len()
            invariant
                self.wf(),
                m0 == old(self)@,
                self@.len() == m0.len(),
                i <= program@.len(),
                addr == start_address + 2 * i,
                words_written(m0, program@, start_address as int) == words_written(
                    self@,
                    program@.skip(i as int),
                    addr as int,
                ),
                words_fit(m0.len() as int, program@, start_address as int) == words_fit(
                    self@.len() as int,
                    program@.skip(i as int),
                    addr as int,
                ),
            decreases program@.len() - i,
        {
            let w = program[i];
            proof {
                assert(program@.skip(i as int)[0] == program@[i as int]);
            }
            match self.write_word(addr, w) {
                Ok(()) => {},
                Err(e) => {
                    proof {
                        let rest = program@.skip(i as int);
                        assert(rest.len() > 0);
                        assert(!(addr + 1 < self@.len()));
                        assert(!words_fit(self@.len() as int, rest, addr as int));
                        assert(words_written(self@, rest, addr as int) == self@);
                    }
                    return Err(VmError::OutOfRange);
                },
            }
            proof {
                assert(program@.skip(i as int).skip(1) =~= program@.skip(i + 1));
            }
            addr += 2;
            i += 1;
        }
        proof {
            assert(program@.skip(i as int).len() == 0);
        }
        Ok(())
    }

    /// A hexadecimal dump of the bytes from `start` for `length`
    /// addresses (clipped to the end of storage), sixteen to a line,
    /// each line ending in a printable-character column.
    pub fn dump(&self, start: usize, length: usize) -> (r: String)
        requires
            self.wf(),
        ensures
            ({
                let end = if start + length <= self@.len() {
                    (start + length) as int
                } else {
                    self@.len() as int
                };
                r@ == dump_lines(self@, start as int, end)
            }),
    {
        let end = match start.checked_add(length) {
            Some(e) => if e <= self.size {
                e
            } else {
                self.size
            },
            None => self.size,
        };
        let mut out = String::new();
        let mut addr = start;
        proof {
            assert(out@ + dump_lines(self@, start as int, end as int) =~= dump_lines(
                self@,
                start as int,
                end as int,
            ));
        }
        while addr < end
            invariant
                self.wf(),
                end <= self@.len(),
                out@ + dump_lines(self@, addr as int, end as int) == dump_lines(
                    self@,
                    start as int,
                    end as int,
                ),
            decreases end - addr,
        {
            let ghost line_top = out@;
            push_hex4(&mut out, addr as u16);
            out.append(": ");
            let chunk = if end - addr >= 16 {
                16
            } else {
                end - addr
            };
            let ghost n = chunk as nat;
            let mut j: usize = 0;
            let mut asc: Vec<char> = Vec::new();
            proof {
                assert(hex_cells(self@, addr as int, 0) =~= Seq::<char>::empty());
                assert(ascii_cells(self@, addr as int, 0) =~= Seq::<char>::empty());
                assert(out@ =~= line_top + hex4_chars(addr as u16) + ": "@ + hex_cells(
                    self@,
                    addr as int,
                    0,
                ));
            }
            while j < chunk
                invariant
                    self.wf(),
                    addr + chunk <= self@.len(),
                    j <= chunk,
                    n == chunk as nat,
                    out@ == line_top + hex4_chars(addr as u16) + ": "@ + hex_cells(
                        self@,
                        addr as int,
                        j as nat,
                    ),
                    asc@ == ascii_cells(self@, addr as int, j as nat),
                decreases chunk - j,
            {
                let b = match self.read_byte(addr + j) {
                    Ok(b) => b,
                    Err(_) => 0,
                };
                push_hex2(&mut out, b);
                out.append(" ");
                asc.push(byte_ascii(b));
                proof {
                    lemma_hex_cells_snoc(self@, addr as int, j as nat);
                    lemma_ascii_cells_snoc(self@, addr as int, j as nat);
                    assert(out@ =~= line_top + hex4_chars(addr as u16) + ": "@ + hex_cells(
                        self@,
                        addr as int,
                        (j + 1) as nat,
                    ));
                    assert(asc@ =~= ascii_cells(self@, addr as int, (j + 1) as nat));
                }
                j += 1;
            }
            out.append(" |");
            let asc_str = chars_string(&asc);
            out.append(asc_str.as_str());
            out.append("|
");
            proof {
                assert(out@ =~= line_top + dump_line(self@, addr as int, n));
                assert(line_top + (dump_line(self@, addr as int, n) + dump_lines(
                    self@,
                    addr as int + n,
                    end as int,
                )) =~= (line_top + dump_line(self@, addr as int, n)) + dump_lines(
                    self@,
                    addr as int + n,
                    end as int,
                ));
            }
            addr += chunk;
        }
        proof {
            assert(dump_lines(self@, addr as int, end as int) =~= Seq::<char>::empty());
            assert(out@ =~= dump_lines(self@, start as int, end as int));
        }
        out
    }

    /// Zeroes every byte of storage.
    pub fn clear(&mut self)
        requires
            old(self).wf(),
        ensures
            final(self).wf(),
            final(self)@ == Seq::new(old(self)@.len(), |i: int| 0u8),
    {
        let n = self.data.len();
        let mut i: usize = 0;
        while i < n
            invariant
                i <= n,
                self.data@.len() == n,
                self.size == old(self).size,
                n == old(self)@.len(),
                forall|j: int| 0 <= j < i ==> self.data@[j] == 0u8,
            decreases n - i,
        {
            self.data[i] = 0;
            i += 1;
        }
        proof {
            assert(self@ =~= Seq::new(old(self)@.len(), |i: int| 0u8));
        }
    }
}

/// The hexadecimal cells of `n` bytes from address `a`, each followed
/// by one space.
pub open spec fn hex_cells(m: Seq<u8>, a: int, n: nat) -> Seq<char>
    decreases n,
{
    if n == 0 {
        Seq::<char>::empty()
    } else {
        hex2_chars(m[a]) + " "@ + hex_cells(m, a + 1, (n - 1) as nat)
    }
}

/// The printable rendering of `n` bytes from address `a`: the character
/// itself for printable ASCII, a dot otherwise.
pub open spec fn ascii_cells(m: Seq<u8>, a: int, n: nat) -> Seq<char>
    decreases n,
{
    if n == 0 {
        Seq::<char>::empty()
    } else {
        seq![byte_ascii_char(m[a])] + ascii_cells(m, a + 1, (n - 1) as nat)
    }
}

/// One dump line: the address, `n` hexadecimal byte cells, and the
/// printable column.
pub open spec fn dump_line(m: Seq<u8>, a: int, n: nat) -> Seq<char> {
    hex4_chars(a as u16) + ": "@ + hex_cells(m, a, n) + " |"@ + ascii_cells(m, a, n) + "|\n"@
}

/// The dump of addresses `a` (inclusive) to `end` (exclusive), sixteen
/// bytes to a line.
pub open spec fn dump_lines(m: Seq<u8>, a: int, end: int) -> Seq<char>
    decreases end - a,
{
    if a >= end {
        Seq::<char>::empty()
    } else {
        let n = if end - a >= 16 {
            16nat
        } else {
            (end - a) as nat
        };
        dump_line(m, a, n) + dump_lines(m, a + n, end)
    }
}

/// Extending a run of hexadecimal cells by one byte appends its two
/// digits and a space.
proof fn lemma_hex_cells_snoc(m: Seq<u8>, a: int, n: nat)
    ensures
        hex_cells(m, a, n + 1) == hex_cells(m, a, n) + hex2_chars(m[a + n]) + " "@,
    decreases n,
{
    reveal_strlit(" ");
    if n == 0 {
        assert(hex_cells(m, a, 1) == hex2_chars(m[a]) + " "@ + hex_cells(m, a + 1, 0));
        assert(hex_cells(m, a, 1) =~= hex_cells(m, a, 0) + hex2_chars(m[a]) + " "@);
    } else {
        lemma_hex_cells_snoc(m, a + 1, (n - 1) as nat);
        assert(hex_cells(m, a, n + 1) == hex2_chars(m[a]) + " "@ + hex_cells(m, a + 1, n));
        assert(hex_cells(m, a, n + 1) =~= hex_cells(m, a, n) + hex2_chars(m[a + n]) + " "@);
    }
}

/// Extending a run of printable cells by one byte appends its printable
/// character.
proof fn lemma_ascii_cells_snoc(m: Seq<u8>, a: int, n: nat)
    ensures
        ascii_cells(m, a, n + 1) == ascii_cells(m, a, n).push(byte_ascii_char(m[a + n])),
    decreases n,
{
    if n == 0 {
        assert(ascii_cells(m, a, 1) == seq![byte_ascii_char(m[a])] + ascii_cells(m, a + 1, 0));
        assert(ascii_cells(m, a, 1) =~= ascii_cells(m, a, 0).push(byte_ascii_char(m[a])));
    } else {
        lemma_ascii_cells_snoc(m, a + 1, (n - 1) as nat);
        assert(ascii_cells(m, a, n + 1) == seq![byte_ascii_char(m[a])] + ascii_cells(m, a + 1, n));
        assert(ascii_cells(m, a, n + 1) =~= ascii_cells(m, a, n).push(byte_ascii_char(m[a + n])));
    }
}

/// Reading a word back from the address it was just written to yields
/// exactly the written value, anywhere both of its bytes fit.
pub proof fn lemma_word_round_trip(m: Seq<u8>, a: int, v: u16)
    requires
        0 <= a,
        a + 1 < m.len(),
    ensures
        word_at(word_write(m, a, v), a) == v,
{
    let lo = (v & 0xFF) as u8;
    let hi = (v >> 8) as u8;
    assert((((v >> 8) as u8 as u16) << 8) | ((v & 0xFF) as u8 as u16) == v) by (bit_vector);
    assert(word_write(m, a, v)[a] == lo);
    assert(word_write(m, a, v)[a + 1] == hi);
}

} // verus!
