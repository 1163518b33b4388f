//! Field Programmable I/O Array (FPIOA): routes each of the 48 programmable
//! I/O pins to one of 256 functions.
//!
//! `Fpioa` holds one configuration word per pin. A pin is changed through an
//! `IoPin` handle; `split` makes exactly one handle per pin, and `Parts` hands
//! each out at most once until it is given back.
use vstd::prelude::*;
use crate::bits::{bit_of, lemma_with_bit, u32_set_bit, with_bit};
use crate::sysctl::{APB0, Sysctl};

verus! {

/// Number of programmable I/O pins.
pub const IO_PINS: usize = 48;

/// Bit of a pin's configuration word that enables the pull-up.
pub const PU_BIT: u32 = 16;

/// Bit of a pin's configuration word that enables the pull-down.
pub const PD_BIT: u32 = 17;

/// The register value that selects function `index` with its default pull,
/// drive and enable settings. Its low byte is the function index.
pub open spec fn default_config(index: u8) -> u32 {
    match index {
        0 => 0x00900000,
        1 => 0x00900001,
        2 => 0x00900002,
        3 => 0x00001f03,
        4 => 0x00b03f04,
        5 => 0x00b03f05,
        6 => 0x00b03f06,
        7 => 0x00b03f07,
        8 => 0x00b03f08,
        9 => 0x00b03f09,
        10 => 0x00b03f0a,
        11 => 0x00b03f0b,
        12 => 0x00001f0c,
        13 => 0x00001f0d,
        14 => 0x00001f0e,
        15 => 0x00001f0f,
        16 => 0x03900010,
        17 => 0x00001f11,
        18 => 0x00900012,
        19 => 0x00001f13,
        20 => 0x00900014,
        21 => 0x00900015,
        22 => 0x00001f16,
        23 => 0x00001f17,
        24 => 0x00901f18,
        25 => 0x00901f19,
        26 => 0x00901f1a,
        27 => 0x00901f1b,
        28 => 0x00901f1c,
        29 => 0x00901f1d,
        30 => 0x00901f1e,
        31 => 0x00901f1f,
        32 => 0x00901f20,
        33 => 0x00901f21,
        34 => 0x00901f22,
        35 => 0x00901f23,
        36 => 0x00901f24,
        37 => 0x00901f25,
        38 => 0x00901f26,
        39 => 0x00901f27,
        40 => 0x00901f28,
        41 => 0x00901f29,
        42 => 0x00901f2a,
        43 => 0x00901f2b,
        44 => 0x00901f2c,
        45 => 0x00901f2d,
        46 => 0x00901f2e,
        47 => 0x00901f2f,
        48 => 0x00901f30,
        49 => 0x00901f31,
        50 => 0x00901f32,
        51 => 0x00901f33,
        52 => 0x00901f34,
        53 => 0x00901f35,
        54 => 0x00901f36,
        55 => 0x00901f37,
        56 => 0x00901f38,
        57 => 0x00901f39,
        58 => 0x00901f3a,
        59 => 0x00901f3b,
        60 => 0x00901f3c,
        61 => 0x00901f3d,
        62 => 0x00901f3e,
        63 => 0x00901f3f,
        64 => 0x00900040,
        65 => 0x00001f41,
        66 => 0x00900042,
        67 => 0x00001f43,
        68 => 0x00900044,
        69 => 0x00001f45,
        70 => 0x00b03f46,
        71 => 0x00b03f47,
        72 => 0x00b03f48,
        73 => 0x00b03f49,
        74 => 0x00b03f4a,
        75 => 0x00b03f4b,
        76 => 0x00b03f4c,
        77 => 0x00b03f4d,
        78 => 0x00001f4e,
        79 => 0x00001f4f,
        80 => 0x00001f50,
        81 => 0x00001f51,
        82 => 0x03900052,
        83 => 0x00001f53,
        84 => 0x00b03f54,
        85 => 0x00900055,
        86 => 0x00900056,
        87 => 0x00001f57,
        88 => 0x00001f58,
        89 => 0x00001f59,
        90 => 0x0090005a,
        91 => 0x0090005b,
        92 => 0x0090005c,
        93 => 0x0090005d,
        94 => 0x00001f5e,
        95 => 0x00001f5f,
        96 => 0x00001f60,
        97 => 0x00001f61,
        98 => 0x00001f62,
        99 => 0x00001f63,
        100 => 0x00001f64,
        101 => 0x00900065,
        102 => 0x00900066,
        103 => 0x00900067,
        104 => 0x00900068,
        105 => 0x00001f69,
        106 => 0x00001f6a,
        107 => 0x00001f6b,
        108 => 0x00001f6c,
        109 => 0x00001f6d,
        110 => 0x00001f6e,
        111 => 0x00001f6f,
        112 => 0x00900070,
        113 => 0x00900071,
        114 => 0x00900072,
        115 => 0x00900073,
        116 => 0x00001f74,
        117 => 0x00001f75,
        118 => 0x00001f76,
        119 => 0x00001f77,
        120 => 0x00000078,
        121 => 0x00000079,
        122 => 0x0000007a,
        123 => 0x0000007b,
        124 => 0x0000007c,
        125 => 0x0000007d,
        126 => 0x0099107e,
        127 => 0x0099107f,
        128 => 0x00991080,
        129 => 0x00991081,
        130 => 0x00991082,
        131 => 0x00991083,
        132 => 0x00001f84,
        133 => 0x00001f85,
        134 => 0x00001f86,
        135 => 0x00900087,
        136 => 0x00900088,
        137 => 0x00900089,
        138 => 0x0090008a,
        139 => 0x0090008b,
        140 => 0x0090008c,
        141 => 0x0090008d,
        142 => 0x0090008e,
        143 => 0x0090008f,
        144 => 0x00900090,
        145 => 0x00900091,
        146 => 0x00993092,
        147 => 0x00993093,
        148 => 0x00900094,
        149 => 0x00900095,
        150 => 0x00900096,
        151 => 0x00900097,
        152 => 0x00900098,
        153 => 0x00001f99,
        154 => 0x00001f9a,
        155 => 0x00001f9b,
        156 => 0x00001f9c,
        157 => 0x00001f9d,
        158 => 0x00001f9e,
        159 => 0x00001f9f,
        160 => 0x00001fa0,
        161 => 0x00001fa1,
        162 => 0x009000a2,
        163 => 0x009000a3,
        164 => 0x009000a4,
        165 => 0x009000a5,
        166 => 0x009000a6,
        167 => 0x00001fa7,
        168 => 0x00001fa8,
        169 => 0x00001fa9,
        170 => 0x00001faa,
        171 => 0x00001fab,
        172 => 0x00001fac,
        173 => 0x00001fad,
        174 => 0x00001fae,
        175 => 0x00001faf,
        176 => 0x009000b0,
        177 => 0x009000b1,
        178 => 0x009000b2,
        179 => 0x009000b3,
        180 => 0x009000b4,
        181 => 0x00001fb5,
        182 => 0x00001fb6,
        183 => 0x00001fb7,
        184 => 0x00001fb8,
        185 => 0x00001fb9,
        186 => 0x00001fba,
        187 => 0x00001fbb,
        188 => 0x00001fbc,
        189 => 0x00001fbd,
        190 => 0x00001fbe,
        191 => 0x00001fbf,
        192 => 0x00001fc0,
        193 => 0x00001fc1,
        194 => 0x00001fc2,
        195 => 0x00001fc3,
        196 => 0x00001fc4,
        197 => 0x00001fc5,
        198 => 0x00001fc6,
        199 => 0x00001fc7,
        200 => 0x00001fc8,
        201 => 0x00001fc9,
        202 => 0x00001fca,
        203 => 0x00001fcb,
        204 => 0x00001fcc,
        205 => 0x00001fcd,
        206 => 0x00001fce,
        207 => 0x00001fcf,
        208 => 0x00001fd0,
        209 => 0x00001fd1,
        210 => 0x00001fd2,
        211 => 0x00001fd3,
        212 => 0x00001fd4,
        213 => 0x009000d5,
        214 => 0x009000d6,
        215 => 0x009000d7,
        216 => 0x009000d8,
        217 => 0x009100d9,
        218 => 0x00991fda,
        219 => 0x009000db,
        220 => 0x009000dc,
        221 => 0x009000dd,
        222 => 0x000000de,
        223 => 0x009000df,
        224 => 0x00001fe0,
        225 => 0x00001fe1,
        226 => 0x00001fe2,
        227 => 0x00001fe3,
        228 => 0x00001fe4,
        229 => 0x00001fe5,
        230 => 0x00001fe6,
        231 => 0x00001fe7,
        232 => 0x00001fe8,
        233 => 0x00001fe9,
        234 => 0x00001fea,
        235 => 0x00001feb,
        236 => 0x00001fec,
        237 => 0x00001fed,
        238 => 0x00001fee,
        239 => 0x00001fef,
        240 => 0x00001ff0,
        241 => 0x00001ff1,
        242 => 0x00001ff2,
        243 => 0x00001ff3,
        244 => 0x00001ff4,
        245 => 0x00001ff5,
        246 => 0x00001ff6,
        247 => 0x00001ff7,
        248 => 0x00001ff8,
        249 => 0x00001ff9,
        250 => 0x00001ffa,
        251 => 0x00001ffb,
        252 => 0x00001ffc,
        253 => 0x00001ffd,
        254 => 0x00001ffe,
        _ => 0x00001fff,
    }
}

/// Every default register value carries its function index in its low byte.
pub proof fn lemma_default_config_selects(index: u8)
    ensures
        default_config(index) % 256 == index as u32,
{
}

/// The register value that selects function `index` with its default
/// settings.
pub fn function_default(index: u8) -> (r: u32)
    ensures
        r == default_config(index),
{
    match index {
        0 => 0x00900000,
        1 => 0x00900001,
        2 => 0x00900002,
        3 => 0x00001f03,
        4 => 0x00b03f04,
        5 => 0x00b03f05,
        6 => 0x00b03f06,
        7 => 0x00b03f07,
        8 => 0x00b03f08,
        9 => 0x00b03f09,
        10 => 0x00b03f0a,
        11 => 0x00b03f0b,
        12 => 0x00001f0c,
        13 => 0x00001f0d,
        14 => 0x00001f0e,
        15 => 0x00001f0f,
        16 => 0x03900010,
        17 => 0x00001f11,
        18 => 0x00900012,
        19 => 0x00001f13,
        20 => 0x00900014,
        21 => 0x00900015,
        22 => 0x00001f16,
        23 => 0x00001f17,
        24 => 0x00901f18,
        25 => 0x00901f19,
        26 => 0x00901f1a,
        27 => 0x00901f1b,
        28 => 0x00901f1c,
        29 => 0x00901f1d,
        30 => 0x00901f1e,
        31 => 0x00901f1f,
        32 => 0x00901f20,
        33 => 0x00901f21,
        34 => 0x00901f22,
        35 => 0x00901f23,
        36 => 0x00901f24,
        37 => 0x00901f25,
        38 => 0x00901f26,
        39 => 0x00901f27,
        40 => 0x00901f28,
        41 => 0x00901f29,
        42 => 0x00901f2a,
        43 => 0x00901f2b,
        44 => 0x00901f2c,
        45 => 0x00901f2d,
        46 => 0x00901f2e,
        47 => 0x00901f2f,
        48 => 0x00901f30,
        49 => 0x00901f31,
        50 => 0x00901f32,
        51 => 0x00901f33,
        52 => 0x00901f34,
        53 => 0x00901f35,
        54 => 0x00901f36,
        55 => 0x00901f37,
        56 => 0x00901f38,
        57 => 0x00901f39,
        58 => 0x00901f3a,
        59 => 0x00901f3b,
        60 => 0x00901f3c,
        61 => 0x00901f3d,
        62 => 0x00901f3e,
        63 => 0x00901f3f,
        64 => 0x00900040,
        65 => 0x00001f41,
        66 => 0x00900042,
        67 => 0x00001f43,
        68 => 0x00900044,
        69 => 0x00001f45,
        70 => 0x00b03f46,
        71 => 0x00b03f47,
        72 => 0x00b03f48,
        73 => 0x00b03f49,
        74 => 0x00b03f4a,
        75 => 0x00b03f4b,
        76 => 0x00b03f4c,
        77 => 0x00b03f4d,
        78 => 0x00001f4e,
        79 => 0x00001f4f,
        80 => 0x00001f50,
        81 => 0x00001f51,
        82 => 0x03900052,
        83 => 0x00001f53,
        84 => 0x00b03f54,
        85 => 0x00900055,
        86 => 0x00900056,
        87 => 0x00001f57,
        88 => 0x00001f58,
        89 => 0x00001f59,
        90 => 0x0090005a,
        91 => 0x0090005b,
        92 => 0x0090005c,
        93 => 0x0090005d,
        94 => 0x00001f5e,
        95 => 0x00001f5f,
        96 => 0x00001f60,
        97 => 0x00001f61,
        98 => 0x00001f62,
        99 => 0x00001f63,
        100 => 0x00001f64,
        101 => 0x00900065,
        102 => 0x00900066,
        103 => 0x00900067,
        104 => 0x00900068,
        105 => 0x00001f69,
        106 => 0x00001f6a,
        107 => 0x00001f6b,
        108 => 0x00001f6c,
        109 => 0x00001f6d,
        110 => 0x00001f6e,
        111 => 0x00001f6f,
        112 => 0x00900070,
        113 => 0x00900071,
        114 => 0x00900072,
        115 => 0x00900073,
        116 => 0x00001f74,
        117 => 0x00001f75,
        118 => 0x00001f76,
        119 => 0x00001f77,
        120 => 0x00000078,
        121 => 0x00000079,
        122 => 0x0000007a,
        123 => 0x0000007b,
        124 => 0x0000007c,
        125 => 0x0000007d,
        126 => 0x0099107e,
        127 => 0x0099107f,
        128 => 0x00991080,
        129 => 0x00991081,
        130 => 0x00991082,
        131 => 0x00991083,
        132 => 0x00001f84,
        133 => 0x00001f85,
        134 => 0x00001f86,
        135 => 0x00900087,
        136 => 0x00900088,
        137 => 0x00900089,
        138 => 0x0090008a,
        139 => 0x0090008b,
        140 => 0x0090008c,
        141 => 0x0090008d,
        142 => 0x0090008e,
        143 => 0x0090008f,
        144 => 0x00900090,
        145 => 0x00900091,
        146 => 0x00993092,
        147 => 0x00993093,
        148 => 0x00900094,
        149 => 0x00900095,
        150 => 0x00900096,
        151 => 0x00900097,
        152 => 0x00900098,
        153 => 0x00001f99,
        154 => 0x00001f9a,
        155 => 0x00001f9b,
        156 => 0x00001f9c,
        157 => 0x00001f9d,
        158 => 0x00001f9e,
        159 => 0x00001f9f,
        160 => 0x00001fa0,
        161 => 0x00001fa1,
        162 => 0x009000a2,
        163 => 0x009000a3,
        164 => 0x009000a4,
        165 => 0x009000a5,
        166 => 0x009000a6,
        167 => 0x00001fa7,
        168 => 0x00001fa8,
        169 => 0x00001fa9,
        170 => 0x00001faa,
        171 => 0x00001fab,
        172 => 0x00001fac,
        173 => 0x00001fad,
        174 => 0x00001fae,
        175 => 0x00001faf,
        176 => 0x009000b0,
        177 => 0x009000b1,
        178 => 0x009000b2,
        179 => 0x009000b3,
        180 => 0x009000b4,
        181 => 0x00001fb5,
        182 => 0x00001fb6,
        183 => 0x00001fb7,
        184 => 0x00001fb8,
        185 => 0x00001fb9,
        186 => 0x00001fba,
        187 => 0x00001fbb,
        188 => 0x00001fbc,
        189 => 0x00001fbd,
        190 => 0x00001fbe,
        191 => 0x00001fbf,
        192 => 0x00001fc0,
        193 => 0x00001fc1,
        194 => 0x00001fc2,
        195 => 0x00001fc3,
        196 => 0x00001fc4,
        197 => 0x00001fc5,
        198 => 0x00001fc6,
        199 => 0x00001fc7,
        200 => 0x00001fc8,
        201 => 0x00001fc9,
        202 => 0x00001fca,
        203 => 0x00001fcb,
        204 => 0x00001fcc,
        205 => 0x00001fcd,
        206 => 0x00001fce,
        207 => 0x00001fcf,
        208 => 0x00001fd0,
        209 => 0x00001fd1,
        210 => 0x00001fd2,
        211 => 0x00001fd3,
        212 => 0x00001fd4,
        213 => 0x009000d5,
        214 => 0x009000d6,
        215 => 0x009000d7,
        216 => 0x009000d8,
        217 => 0x009100d9,
        218 => 0x00991fda,
        219 => 0x009000db,
        220 => 0x009000dc,
        221 => 0x009000dd,
        222 => 0x000000de,
        223 => 0x009000df,
        224 => 0x00001fe0,
        225 => 0x00001fe1,
        226 => 0x00001fe2,
        227 => 0x00001fe3,
        228 => 0x00001fe4,
        229 => 0x00001fe5,
        230 => 0x00001fe6,
        231 => 0x00001fe7,
        232 => 0x00001fe8,
        233 => 0x00001fe9,
        234 => 0x00001fea,
        235 => 0x00001feb,
        236 => 0x00001fec,
        237 => 0x00001fed,
        238 => 0x00001fee,
        239 => 0x00001fef,
        240 => 0x00001ff0,
        241 => 0x00001ff1,
        242 => 0x00001ff2,
        243 => 0x00001ff3,
        244 => 0x00001ff4,
        245 => 0x00001ff5,
        246 => 0x00001ff6,
        247 => 0x00001ff7,
        248 => 0x00001ff8,
        249 => 0x00001ff9,
        250 => 0x00001ffa,
        251 => 0x00001ffb,
        252 => 0x00001ffc,
        253 => 0x00001ffd,
        254 => 0x00001ffe,
        _ => 0x00001fff,
    }
}

/// Pull direction.
#[derive(Clone, Copy, Debug, PartialEq, Eq, Structural)]
pub enum Pull {
    /// No pulls
    Floating,
    /// Pull down
    Down,
    /// Pull up
    Up,
}

/// A function a pin can take, by its index in `functions`.
#[derive(Clone, Copy, Debug, PartialEq, Eq, Structural)]
pub struct Function {
    pub index: u8,
}

/// The pull-up and pull-down bits of `word` set as `pull` asks.
pub open spec fn with_pull(word: u32, pull: Pull) -> u32 {
    let (pu, pd) = match pull {
        Pull::Floating => (false, false),
        Pull::Down => (false, true),
        Pull::Up => (true, false),
    };
    with_bit(with_bit(word, PU_BIT, pu), PD_BIT, pd)
}

/// The configuration words of the programmable I/O pins.
pub struct Fpioa {
    pub io: Vec<u32>,
}

impl Fpioa {
    /// One word per pin.
    pub open spec fn wf(&self) -> bool {
        self.io@.len() == IO_PINS
    }
}

/// Exclusive handle to one programmable I/O pin, tagged with the function it
/// was last given.
pub struct IoPin {
    index: u8,
    function: u8,
}

impl IoPin {
    /// The pin this handle controls.
    pub closed spec fn pin(&self) -> int {
        self.index as int
    }

    /// The function this handle's pin was last given.
    pub closed spec fn func(&self) -> int {
        self.function as int
    }

    /// Every handle names a pin that exists.
    pub closed spec fn wf(&self) -> bool {
        self.index < IO_PINS
    }

    /// The pin this handle controls.
    pub fn index(&self) -> (r: u8)
        ensures
            r == self.pin(),
    {
        self.index
    }

    /// The function this handle's pin was last given.
    pub fn function(&self) -> (r: Function)
        ensures
            r.index == self.func(),
    {
        Function { index: self.function }
    }

    /// Routes the pin to `func`, with that function's default settings.
    pub fn into_function(self, regs: &mut Fpioa, func: Function) -> (r: IoPin)
        requires
            self.wf(),
            old(regs).wf(),
        ensures
            r.wf(),
            r.pin() == self.pin(),
            r.func() == func.index,
            final(regs).io@ == old(regs).io@.update(self.pin(), default_config(func.index)),
    {
        let w = function_default(func.index);
        regs.io.set(self.index as usize, w);
        IoPin { index: self.index, function: func.index }
    }

    /// Sets the pin's pull-up and pull-down; its function stays.
    pub fn set_io_pull(&mut self, regs: &mut Fpioa, pull: Pull)
        requires
            old(self).wf(),
            old(regs).wf(),
        ensures
            *final(self) == *old(self),
            final(regs).io@ == old(regs).io@.update(
                old(self).pin(),
                with_pull(old(regs).io@[old(self).pin()], pull),
            ),
    {
        let i = self.index as usize;
        let (pu, pd) = match pull {
            Pull::Floating => (false, false),
            Pull::Down => (false, true),
            Pull::Up => (true, false),
        };
        let w = u32_set_bit(regs.io[i], pu, PU_BIT);
        let w = u32_set_bit(w, pd, PD_BIT);
        regs.io.set(i, w);
    }
}

/// The pull a pin's configuration word selects: both bits clear, or the one
/// that is set.
pub proof fn lemma_with_pull(word: u32, pull: Pull)
    ensures
        bit_of(with_pull(word, pull), PU_BIT) == (pull == Pull::Up),
        bit_of(with_pull(word, pull), PD_BIT) == (pull == Pull::Down),
        forall|j: u32|
            j < 32 && j != PU_BIT && j != PD_BIT ==> #[trigger] bit_of(with_pull(word, pull), j)
                == bit_of(word, j),
{
    let (pu, pd) = match pull {
        Pull::Floating => (false, false),
        Pull::Down => (false, true),
        Pull::Up => (true, false),
    };
    lemma_with_bit(word, PU_BIT, pu);
    lemma_with_bit(with_bit(word, PU_BIT, pu), PD_BIT, pd);
}

/// Splits the FPIOA into its pins.
pub trait FpioaExt: Sized {
    /// The configuration words this value holds.
    spec fn words_view(&self) -> Seq<u32>;

    /// Turns on the clocks the FPIOA needs and makes one handle per pin.
    fn split(self, apb0: &mut APB0, sysctl: &mut Sysctl) -> (r: Parts)
        ensures
            r.wf(),
            r.regs.io@ == self.words_view(),
            r.available() == Seq::new(IO_PINS as nat, |i: int| true),
            *final(sysctl) == (Sysctl { apb0_clk_en: true, fpioa_clk_en: true, ..*old(sysctl) }),
    ;
}

impl FpioaExt for Fpioa {
    open spec fn words_view(&self) -> Seq<u32> {
        self.io@
    }

    /// Each handle is tagged with its pin's function after reset.
    fn split(self, apb0: &mut APB0, sysctl: &mut Sysctl) -> (r: Parts) {
        apb0.enable(sysctl);
        sysctl.fpioa_clk_en = true;
        let mut pins: Vec<Option<IoPin>> = Vec::new();
        let mut i: u8 = 0;
        while (i as usize) < IO_PINS
            invariant
                i as usize <= IO_PINS,
                pins@.len() == i,
                forall|j: int| 0 <= j < i ==> #[trigger] pins@[j].is_some() && pins@[j].unwrap().wf()
                    && pins@[j].unwrap().pin() == j,
            decreases IO_PINS - i as usize,
        {
            pins.push(Some(IoPin { index: i, function: reset_function(i) }));
            i = i + 1;
        }
        let r = Parts { regs: self, pins: IoSlots { slots: pins } };
        assert(r.available() =~= Seq::new(IO_PINS as nat, |i: int| true));
        r
    }
}

/// The function each pin has after reset.
fn reset_function(pin: u8) -> u8 {
    if pin < 4 {
        pin
    } else if pin == 4 {
        crate::functions::UARTHS_RX
    } else if pin == 5 {
        crate::functions::UARTHS_TX
    } else if pin < 8 {
        crate::functions::RESV0
    } else if pin < 16 {
        crate::functions::GPIO0 + (pin - 8)
    } else if pin < 48 {
        crate::functions::GPIOHS0 + (pin - 16)
    } else {
        crate::functions::RESV0
    }
}

/// The pin slots: each holds its pin's handle until it is handed out.
pub struct IoSlots {
    slots: Vec<Option<IoPin>>,
}

impl IoSlots {
    /// Which pins are held here, not handed out.
    pub closed spec fn available(&self) -> Seq<bool> {
        self.slots@.map_values(|p: Option<IoPin>| p.is_some())
    }

    /// One slot per pin; a held handle sits in its own pin's slot.
    pub closed spec fn wf(&self) -> bool {
        &&& self.slots@.len() == IO_PINS
        &&& forall|j: int|
            0 <= j < IO_PINS && #[trigger] self.slots@[j].is_some() ==> self.slots@[j].unwrap().wf()
                && self.slots@[j].unwrap().pin() == j
    }

    /// Hands out the handle of pin `index`, or `None` where it is already out.
    pub fn take(&mut self, index: usize) -> (r: Option<IoPin>)
        requires
            old(self).wf(),
            index < IO_PINS,
        ensures
            final(self).wf(),
            r.is_some() == old(self).available()[index as int],
            r.is_some() ==> r.unwrap().wf() && r.unwrap().pin() == index,
            final(self).available() == old(self).available().update(index as int, false),
    {
        let mut slot: Option<IoPin> = None;
        std::mem::swap(&mut slot, &mut self.slots[index]);
        proof {
            assert(self.available() =~= old(self).available().update(index as int, false));
        }
        slot
    }

    /// Takes back a handle that `take` gave out. Where its slot is somehow
    /// occupied, the handle is returned.
    pub fn give_back(&mut self, pin: IoPin) -> (r: Option<IoPin>)
        requires
            old(self).wf(),
            pin.wf(),
        ensures
            final(self).wf(),
            r.is_none() == !old(self).available()[pin.pin()],
            r.is_none() ==> final(self).available() == old(self).available().update(pin.pin(), true),
            r.is_some() ==> final(self).available() == old(self).available() && r == Some(pin),
    {
        let i = pin.index as usize;
        if self.slots[i].is_some() {
            Some(pin)
        } else {
            self.slots.set(i, Some(pin));
            proof {
                assert(self.available() =~= old(self).available().update(i as int, true));
            }
            None
        }
    }
}

/// The FPIOA's configuration words and the pin handles not handed out.
pub struct Parts {
    /// The registers the pin handles read and write.
    pub regs: Fpioa,
    /// The pin handles not handed out.
    pub pins: IoSlots,
}

impl Parts {
    /// Which pins are held here, not handed out.
    pub open spec fn available(&self) -> Seq<bool> {
        self.pins.available()
    }

    /// One slot per pin; a held handle sits in its own pin's slot.
    pub open spec fn wf(&self) -> bool {
        self.pins.wf()
    }

    /// Hands out the handle of pin `index`, or `None` where it is already out.
    pub fn take(&mut self, index: usize) -> (r: Option<IoPin>)
        requires
            old(self).wf(),
            index < IO_PINS,
        ensures
            final(self).wf(),
            final(self).regs == old(self).regs,
            r.is_some() == old(self).available()[index as int],
            r.is_some() ==> r.unwrap().wf() && r.unwrap().pin() == index,
            final(self).available() == old(self).available().update(index as int, false),
    {
        self.pins.take(index)
    }

    /// Takes back a handle that `take` gave out. Where its slot is somehow
    /// occupied, the handle is returned.
    pub fn give_back(&mut self, pin: IoPin) -> (r: Option<IoPin>)
        requires
            old(self).wf(),
            pin.wf(),
        ensures
            final(self).wf(),
            final(self).regs == old(self).regs,
            r.is_none() == !old(self).available()[pin.pin()],
            r.is_none() ==> final(self).available() == old(self).available().update(pin.pin(), true),
            r.is_some() ==> final(self).available() == old(self).available() && r == Some(pin),
    {
        self.pins.give_back(pin)
    }
}

/// A well-formed handle names one of the I/O pins.
pub proof fn lemma_io_pin_wf(p: &IoPin)
    requires
        p.wf(),
    ensures
        0 <= p.pin() < IO_PINS,
{
}

/// `take` leaves its pin unavailable whatever it returned, so a second
/// `take` of that pin gets `None` until the handle is given back: at most one
/// handle per pin is ever live.
pub proof fn lemma_take_exclusive(before: Parts, after: Parts, index: int)
    requires
        before.wf(),
        0 <= index < IO_PINS,
        after.available() == before.available().update(index, false),
    ensures
        !after.available()[index],
{
}

} // verus!
