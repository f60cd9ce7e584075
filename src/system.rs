//! Identifies the Raspberry Pi model and its SoC from the text of
//! `/proc/cpuinfo`.
use vstd::prelude::*;

verus! {

/// Physical base address of the peripherals on the BCM2835 (BCM2708).
pub const BCM2708_PERIPHERAL_BASE: u32 = 0x20000000;

/// Physical base address of the peripherals on the BCM2836 and BCM2837
/// (BCM2709).
pub const BCM2709_PERIPHERAL_BASE: u32 = 0x3f000000;

/// Offset of the GPIO registers from the peripheral base.
pub const GPIO_OFFSET: u32 = 0x200000;

/// Errors that can occur when trying to identify the Raspberry Pi model.
#[derive(Debug, Clone, Copy, PartialEq, Eq, Structural)]
pub enum Error {
    /// The `Hardware` line names no supported BCM SoC.
    UnknownSoC,
    /// The `Revision` line names no supported Raspberry Pi model.
    UnknownModel,
    /// `/proc/cpuinfo` could not be read.
    CantAccessProcCPUInfo,
}

/// Raspberry Pi models.
#[derive(Debug, Clone, Copy, PartialEq, Eq, Structural)]
pub enum Model {
    RaspberryPiA,
    RaspberryPiAPlus,
    RaspberryPiB,
    RaspberryPiBPlus,
    RaspberryPi2B,
    RaspberryPi3B,
    RaspberryPiCompute,
    RaspberryPiZero,
    Unknown,
}

/// Broadcom SoCs used on Raspberry Pi boards.
#[allow(non_camel_case_types)]
#[derive(Debug, Clone, Copy, PartialEq, Eq, Structural)]
pub enum SoC {
    BCM2835,
    BCM2836,
    BCM2837,
}

/// The identified board: model, SoC, and where its GPIO registers live.
#[derive(Debug, Clone, Copy, PartialEq, Eq, Structural)]
pub struct System {
    pub model: Model,
    pub soc: SoC,
    pub peripheral_base: u32,
    pub gpio_offset: u32,
}

/// The lines of `text`: the pieces between newline bytes. A text that ends
/// in a newline has an empty last piece.
pub open spec fn split_lines(text: Seq<u8>) -> Seq<Seq<u8>>
    decreases text.len(),
{
    if text.len() == 0 {
        seq![Seq::<u8>::empty()]
    } else {
        let init = split_lines(text.drop_last());
        if text.last() == '\n' as u8 {
            init.push(Seq::<u8>::empty())
        } else {
            init.update(init.len() - 1, init.last().push(text.last()))
        }
    }
}

/// `line` begins with `key`.
pub open spec fn starts_with(line: Seq<u8>, key: Seq<u8>) -> bool {
    key.len() <= line.len() && line.subrange(0, key.len() as int) == key
}

/// What follows `key` on the last of `lines` that begins with it; empty if
/// none does.
pub open spec fn last_field(lines: Seq<Seq<u8>>, key: Seq<u8>) -> Seq<u8>
    decreases lines.len(),
{
    if lines.len() == 0 {
        Seq::empty()
    } else if starts_with(lines.last(), key) {
        lines.last().subrange(key.len() as int, lines.last().len() as int)
    } else {
        last_field(lines.drop_last(), key)
    }
}

/// The value of a `key` line in the text of `/proc/cpuinfo`; the last such
/// line wins.
pub open spec fn cpuinfo_field(text: Seq<u8>, key: Seq<u8>) -> Seq<u8> {
    last_field(split_lines(text), key)
}

/// `Hardware\t: `
pub open spec fn hardware_key() -> Seq<u8> {
    seq![
        'H' as u8, 'a' as u8, 'r' as u8, 'd' as u8, 'w' as u8, 'a' as u8, 'r' as u8, 'e' as u8,
        '\t' as u8, ':' as u8, ' ' as u8,
    ]
}

/// `Revision\t: `
pub open spec fn revision_key() -> Seq<u8> {
    seq![
        'R' as u8, 'e' as u8, 'v' as u8, 'i' as u8, 's' as u8, 'i' as u8, 'o' as u8, 'n' as u8,
        '\t' as u8, ':' as u8, ' ' as u8,
    ]
}

/// `BCM` followed by four digits.
pub open spec fn bcm(a: char, b: char, c: char, d: char) -> Seq<u8> {
    seq!['B' as u8, 'C' as u8, 'M' as u8, a as u8, b as u8, c as u8, d as u8]
}

/// The SoC names that the `Hardware` line may carry on a supported board.
pub open spec fn known_soc(hardware: Seq<u8>) -> bool {
    ||| hardware == bcm('2', '7', '0', '8')
    ||| hardware == bcm('2', '7', '0', '9')
    ||| hardware == bcm('2', '8', '3', '5')
    ||| hardware == bcm('2', '8', '3', '6')
    ||| hardware == bcm('2', '8', '3', '7')
}

/// The model named by the two type digits of a new-style revision code.
pub open spec fn model_of_type_code(hi: u8, lo: u8) -> Model {
    if hi != '0' as u8 {
        Model::Unknown
    } else if lo == '0' as u8 {
        Model::RaspberryPiA
    } else if lo == '1' as u8 {
        Model::RaspberryPiB
    } else if lo == '2' as u8 {
        Model::RaspberryPiAPlus
    } else if lo == '3' as u8 {
        Model::RaspberryPiBPlus
    } else if lo == '4' as u8 {
        Model::RaspberryPi2B
    } else if lo == '6' as u8 {
        Model::RaspberryPiCompute
    } else if lo == '8' as u8 {
        Model::RaspberryPi3B
    } else if lo == '9' as u8 {
        Model::RaspberryPiZero
    } else {
        Model::Unknown
    }
}

/// The model named by an old-style, four-character revision code `00cd`.
pub open spec fn model_of_old_code(a: u8, b: u8, c: u8, d: u8) -> Model {
    if a != '0' as u8 || b != '0' as u8 {
        Model::Unknown
    } else if c == '0' as u8 {
        if d == '7' as u8 || d == '8' as u8 || d == '9' as u8 {
            Model::RaspberryPiA
        } else if ('2' as u8 <= d && d <= '6' as u8) || d == 'd' as u8 || d == 'e' as u8 || d
            == 'f' as u8 {
            Model::RaspberryPiB
        } else {
            Model::Unknown
        }
    } else if c == '1' as u8 {
        if d == '2' as u8 {
            Model::RaspberryPiAPlus
        } else if d == '0' as u8 || d == '3' as u8 {
            Model::RaspberryPiBPlus
        } else if d == '1' as u8 {
            Model::RaspberryPiCompute
        } else {
            Model::Unknown
        }
    } else {
        Model::Unknown
    }
}

/// The model named by a revision code: new-style codes (six characters or
/// more) carry the model in the two characters before the last one; old-style
/// codes have exactly four characters.
pub open spec fn model_of_revision(rev: Seq<u8>) -> Model {
    if rev.len() >= 6 {
        model_of_type_code(rev[rev.len() - 3], rev[rev.len() - 2])
    } else if rev.len() == 4 {
        model_of_old_code(rev[0], rev[1], rev[2], rev[3])
    } else {
        Model::Unknown
    }
}

/// The board description for a model.
pub open spec fn system_for(model: Model) -> Result<System, Error> {
    match model {
        Model::RaspberryPi2B => Ok(
            System {
                model,
                soc: SoC::BCM2836,
                peripheral_base: BCM2709_PERIPHERAL_BASE,
                gpio_offset: GPIO_OFFSET,
            },
        ),
        Model::RaspberryPi3B => Ok(
            System {
                model,
                soc: SoC::BCM2837,
                peripheral_base: BCM2709_PERIPHERAL_BASE,
                gpio_offset: GPIO_OFFSET,
            },
        ),
        Model::Unknown => Err(Error::UnknownModel),
        _ => Ok(
            System {
                model,
                soc: SoC::BCM2835,
                peripheral_base: BCM2708_PERIPHERAL_BASE,
                gpio_offset: GPIO_OFFSET,
            },
        ),
    }
}

/// The board described by the text of `/proc/cpuinfo`.
pub open spec fn detect(text: Seq<u8>) -> Result<System, Error> {
    if !known_soc(cpuinfo_field(text, hardware_key())) {
        Err(Error::UnknownSoC)
    } else {
        system_for(model_of_revision(cpuinfo_field(text, revision_key())))
    }
}

/// There is always at least one line, possibly empty.
proof fn lemma_split_lines_nonempty(text: Seq<u8>)
    ensures
        split_lines(text).len() >= 1,
    decreases text.len(),
{
    if text.len() > 0 {
        lemma_split_lines_nonempty(text.drop_last());
    }
}

/// `s[start..end]` begins with `key`.
fn starts_with_at(s: &[u8], start: usize, end: usize, key: &[u8]) -> (r: bool)
    requires
        start <= end <= s@.len(),
    ensures
        r == starts_with(s@.subrange(start as int, end as int), key@),
{
    if end - start < key.len() {
        return false;
    }
    let mut k: usize = 0;
    while k < key.len()
        invariant
            k <= key@.len(),
            start + key@.len() <= end <= s@.len(),
            forall|j: int| 0 <= j < k ==> s@[start + j] == key@[j],
        decreases key.len() - k,
    {
        if s[start + k] != key[k] {
            assert(s@.subrange(start as int, end as int).subrange(0, key@.len() as int)[k as int]
                != key@[k as int]);
            return false;
        }
        k += 1;
    }
    assert(s@.subrange(start as int, end as int).subrange(0, key@.len() as int) =~= key@);
    true
}

/// `s[start..end]` is exactly `lit`.
fn range_eq(s: &[u8], start: usize, end: usize, lit: &[u8]) -> (r: bool)
    requires
        start <= end <= s@.len(),
    ensures
        r == (s@.subrange(start as int, end as int) == lit@),
{
    if end - start != lit.len() {
        assert(s@.subrange(start as int, end as int).len() != lit@.len());
        return false;
    }
    let r = starts_with_at(s, start, end, lit);
    assert(s@.subrange(start as int, end as int).subrange(0, lit@.len() as int) =~= s@.subrange(
        start as int,
        end as int,
    ));
    r
}

/// Where the value of the last `key` line of `text` lies: what follows `key`
/// up to the end of that line.
fn field_range(text: &[u8], key: &[u8]) -> (r: (usize, usize))
    ensures
        r.0 <= r.1 <= text@.len(),
        text@.subrange(r.0 as int, r.1 as int) == cpuinfo_field(text@, key@),
{
    let n = text.len();
    let mut line_start: usize = 0;
    let mut a: usize = 0;
    let mut b: usize = 0;
    let mut i: usize = 0;
    proof {
        assert(text@.subrange(0, 0) =~= Seq::<u8>::empty());
        assert(split_lines(Seq::<u8>::empty()).drop_last() =~= Seq::<Seq<u8>>::empty());
    }
    while i < n
        invariant
            line_start <= i <= n,
            a <= b <= n,
            n == text@.len(),
            split_lines(text@.subrange(0, i as int)).len() >= 1,
            split_lines(text@.subrange(0, i as int)).last() == text@.subrange(line_start as int, i as int),
            text@.subrange(a as int, b as int) == last_field(
                split_lines(text@.subrange(0, i as int)).drop_last(),
                key@,
            ),
        decreases n - i,
    {
        let ghost prev = text@.subrange(0, i as int);
        let ghost line = text@.subrange(line_start as int, i as int);
        let ghost before = text@.subrange(a as int, b as int);
        let ghost was_newline = text@[i as int] == '\n' as u8;
        let ghost matched = starts_with(line, key@);
        if text[i] == '\n' as u8 {
            if starts_with_at(text, line_start, i, key) {
                a = line_start + key.len();
                b = i;
            }
            line_start = i + 1;
        }
        i += 1;
        proof {
            let t = text@.subrange(0, i as int);
            assert(t.drop_last() =~= prev);
            lemma_split_lines_nonempty(prev);
            if was_newline {
                assert(split_lines(t) == split_lines(prev).push(Seq::<u8>::empty()));
                assert(split_lines(t).drop_last() =~= split_lines(prev));
                assert(split_lines(prev).drop_last().push(line) =~= split_lines(prev));
                if matched {
                    assert(line.subrange(key@.len() as int, line.len() as int) =~= text@.subrange(
                        a as int,
                        b as int,
                    ));
                }
                assert(text@.subrange(line_start as int, i as int) =~= Seq::<u8>::empty());
            } else {
                let s = split_lines(prev);
                assert(split_lines(t) == s.update(s.len() - 1, line.push(t.last())));
                assert(split_lines(t).drop_last() =~= s.drop_last());
                assert(text@.subrange(line_start as int, i as int) =~= line.push(t.last()));
            }
        }
    }
    proof {
        assert(text@.subrange(0, n as int) =~= text@);
    }
    if starts_with_at(text, line_start, n, key) {
        let r = (line_start + key.len(), n);
        assert(text@.subrange(line_start as int, n as int).subrange(
            key@.len() as int,
            (n - line_start) as int,
        ) =~= text@.subrange(r.0 as int, r.1 as int));
        r
    } else {
        (a, b)
    }
}

/// `text[a..b]` names a supported SoC.
fn is_known_soc(text: &[u8], a: usize, b: usize) -> (r: bool)
    requires
        a <= b <= text@.len(),
    ensures
        r == known_soc(text@.subrange(a as int, b as int)),
{
    let names: [[u8; 7]; 5] = [
        ['B' as u8, 'C' as u8, 'M' as u8, '2' as u8, '7' as u8, '0' as u8, '8' as u8],
        ['B' as u8, 'C' as u8, 'M' as u8, '2' as u8, '7' as u8, '0' as u8, '9' as u8],
        ['B' as u8, 'C' as u8, 'M' as u8, '2' as u8, '8' as u8, '3' as u8, '5' as u8],
        ['B' as u8, 'C' as u8, 'M' as u8, '2' as u8, '8' as u8, '3' as u8, '6' as u8],
        ['B' as u8, 'C' as u8, 'M' as u8, '2' as u8, '8' as u8, '3' as u8, '7' as u8],
    ];
    assert(names[0]@ =~= bcm('2', '7', '0', '8'));
    assert(names[1]@ =~= bcm('2', '7', '0', '9'));
    assert(names[2]@ =~= bcm('2', '8', '3', '5'));
    assert(names[3]@ =~= bcm('2', '8', '3', '6'));
    assert(names[4]@ =~= bcm('2', '8', '3', '7'));
    range_eq(text, a, b, &names[0]) || range_eq(text, a, b, &names[1]) || range_eq(
        text,
        a,
        b,
        &names[2],
    ) || range_eq(text, a, b, &names[3]) || range_eq(text, a, b, &names[4])
}

/// The model named by the two type digits of a new-style revision code.
fn type_code_model(hi: u8, lo: u8) -> (r: Model)
    ensures
        r == model_of_type_code(hi, lo),
{
    if hi != '0' as u8 {
        Model::Unknown
    } else if lo == '0' as u8 {
        Model::RaspberryPiA
    } else if lo == '1' as u8 {
        Model::RaspberryPiB
    } else if lo == '2' as u8 {
        Model::RaspberryPiAPlus
    } else if lo == '3' as u8 {
        Model::RaspberryPiBPlus
    } else if lo == '4' as u8 {
        Model::RaspberryPi2B
    } else if lo == '6' as u8 {
        Model::RaspberryPiCompute
    } else if lo == '8' as u8 {
        Model::RaspberryPi3B
    } else if lo == '9' as u8 {
        Model::RaspberryPiZero
    } else {
        Model::Unknown
    }
}

/// The model named by an old-style revision code `abcd`.
fn old_code_model(a: u8, b: u8, c: u8, d: u8) -> (r: Model)
    ensures
        r == model_of_old_code(a, b, c, d),
{
    if a != '0' as u8 || b != '0' as u8 {
        Model::Unknown
    } else if c == '0' as u8 {
        if d == '7' as u8 || d == '8' as u8 || d == '9' as u8 {
            Model::RaspberryPiA
        } else if ('2' as u8 <= d && d <= '6' as u8) || d == 'd' as u8 || d == 'e' as u8 || d
            == 'f' as u8 {
            Model::RaspberryPiB
        } else {
            Model::Unknown
        }
    } else if c == '1' as u8 {
        if d == '2' as u8 {
            Model::RaspberryPiAPlus
        } else if d == '0' as u8 || d == '3' as u8 {
            Model::RaspberryPiBPlus
        } else if d == '1' as u8 {
            Model::RaspberryPiCompute
        } else {
            Model::Unknown
        }
    } else {
        Model::Unknown
    }
}

impl Model {
    /// The model named by the revision code `text[a..b]`.
    fn from_revision(text: &[u8], a: usize, b: usize) -> (r: Model)
        requires
            a <= b <= text@.len(),
        ensures
            r == model_of_revision(text@.subrange(a as int, b as int)),
    {
        let len = b - a;
        if len >= 6 {
            type_code_model(text[b - 3], text[b - 2])
        } else if len == 4 {
            old_code_model(text[a], text[a + 1], text[a + 2], text[a + 3])
        } else {
            Model::Unknown
        }
    }
}

impl System {
    /// The board description for a model: its SoC and peripheral addresses,
    /// or `UnknownModel` for `Model::Unknown`.
    pub fn for_model(model: Model) -> (r: Result<System, Error>)
        ensures
            r == system_for(model),
    {
        match model {
            Model::RaspberryPi2B => Ok(
                System {
                    model,
                    soc: SoC::BCM2836,
                    peripheral_base: BCM2709_PERIPHERAL_BASE,
                    gpio_offset: GPIO_OFFSET,
                },
            ),
            Model::RaspberryPi3B => Ok(
                System {
                    model,
                    soc: SoC::BCM2837,
                    peripheral_base: BCM2709_PERIPHERAL_BASE,
                    gpio_offset: GPIO_OFFSET,
                },
            ),
            Model::Unknown => Err(Error::UnknownModel),
            _ => Ok(
                System {
                    model,
                    soc: SoC::BCM2835,
                    peripheral_base: BCM2708_PERIPHERAL_BASE,
                    gpio_offset: GPIO_OFFSET,
                },
            ),
        }
    }

    /// Identifies the board from the text of `/proc/cpuinfo`: the last
    /// `Hardware` line must name a supported BCM SoC (else `UnknownSoC`), and
    /// the last `Revision` line a supported model (else `UnknownModel`).
    pub fn from_cpuinfo(text: &[u8]) -> (r: Result<System, Error>)
        ensures
            r == detect(text@),
    {
        let hardware: [u8; 11] = [
            'H' as u8, 'a' as u8, 'r' as u8, 'd' as u8, 'w' as u8, 'a' as u8, 'r' as u8, 'e' as u8,
            '\t' as u8, ':' as u8, ' ' as u8,
        ];
        let revision: [u8; 11] = [
            'R' as u8, 'e' as u8, 'v' as u8, 'i' as u8, 's' as u8, 'i' as u8, 'o' as u8, 'n' as u8,
            '\t' as u8, ':' as u8, ' ' as u8,
        ];
        assert(hardware@ =~= hardware_key());
        assert(revision@ =~= revision_key());
        let (ha, hb) = field_range(text, &hardware);
        if !is_known_soc(text, ha, hb) {
            return Err(Error::UnknownSoC);
        }
        let (ra, rb) = field_range(text, &revision);
        System::for_model(Model::from_revision(text, ra, rb))
    }
}

} // verus!
