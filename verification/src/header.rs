//! The print parameters that an xgcode file records in thirty bytes.

use crate::endian::{
    lemma_u16_le_bytes, lemma_u16_le_value, lemma_u32_le_bytes, lemma_u32_le_value, put_u16,
    put_u32, u16_from_le, u16_le, u32_from_le, u32_le,
};
use crate::error::{Error, ErrorView};
use crate::reader::Reader;
use vstd::prelude::*;

verus! {

/// The number of bytes that a [`Header`] takes in a file.
pub const HEADER_LEN: usize = 30;

/// XGCode header
#[derive(Clone, Copy, Debug, PartialEq, Eq, Structural)]
pub struct Header {
    /// Print time, in seconds
    pub print_time: u32,
    /// Filament usage, extruder 0 (right), in mm
    pub filament_0_usage: u32,
    /// Filament usage, extruder 1 (left), in mm
    pub filament_1_usage: u32,
    /// Type of multi-extruder
    pub multi_extruder_type: u16,
    /// Layer height, microns
    pub layer_height: u16,
    /// Function unknown
    pub reserved0: u16,
    /// Perimeter shells, number
    pub perimeter_shells: u16,
    /// Print speed, mm/s
    pub print_speed: u16,
    /// Hotbed temperature, °C
    pub hotbed_temp: u16,
    /// Extruder 0 (right) temperature, °C
    pub extruder_0_temp: u16,
    /// Extruder 1 (left) temperature, °C
    pub extruder_1_temp: u16,
    /// Function unknown
    pub reserved1: u16,
}

impl Header {
    /// The thirty bytes of the header: three 32-bit fields, then nine 16-bit
    /// fields, each little-endian, the reserved ones as they are.
    pub open spec fn bytes(self) -> Seq<u8> {
        u32_le(self.print_time) + u32_le(self.filament_0_usage) + u32_le(self.filament_1_usage)
            + u16_le(self.multi_extruder_type) + u16_le(self.layer_height) + u16_le(
            self.reserved0,
        ) + u16_le(self.perimeter_shells) + u16_le(self.print_speed) + u16_le(self.hotbed_temp)
            + u16_le(self.extruder_0_temp) + u16_le(self.extruder_1_temp) + u16_le(self.reserved1)
    }

    /// The header that the first thirty bytes of `s` hold.
    pub open spec fn parse(s: Seq<u8>) -> Header
        recommends
            s.len() >= HEADER_LEN,
    {
        Header {
            print_time: u32_from_le(s.subrange(0, 4)),
            filament_0_usage: u32_from_le(s.subrange(4, 8)),
            filament_1_usage: u32_from_le(s.subrange(8, 12)),
            multi_extruder_type: u16_from_le(s.subrange(12, 14)),
            layer_height: u16_from_le(s.subrange(14, 16)),
            reserved0: u16_from_le(s.subrange(16, 18)),
            perimeter_shells: u16_from_le(s.subrange(18, 20)),
            print_speed: u16_from_le(s.subrange(20, 22)),
            hotbed_temp: u16_from_le(s.subrange(22, 24)),
            extruder_0_temp: u16_from_le(s.subrange(24, 26)),
            extruder_1_temp: u16_from_le(s.subrange(26, 28)),
            reserved1: u16_from_le(s.subrange(28, 30)),
        }
    }

    /// A header takes thirty bytes, and parsing them gives the header back,
    /// whatever follows them.
    pub proof fn lemma_parse_bytes(self, rest: Seq<u8>)
        ensures
            self.bytes().len() == HEADER_LEN,
            Header::parse(self.bytes() + rest) == self,
    {
        let s = self.bytes() + rest;
        lemma_u32_le_value(self.print_time);
        lemma_u32_le_value(self.filament_0_usage);
        lemma_u32_le_value(self.filament_1_usage);
        lemma_u16_le_value(self.multi_extruder_type);
        lemma_u16_le_value(self.layer_height);
        lemma_u16_le_value(self.reserved0);
        lemma_u16_le_value(self.perimeter_shells);
        lemma_u16_le_value(self.print_speed);
        lemma_u16_le_value(self.hotbed_temp);
        lemma_u16_le_value(self.extruder_0_temp);
        lemma_u16_le_value(self.extruder_1_temp);
        lemma_u16_le_value(self.reserved1);
        assert(s.subrange(0, 4) =~= u32_le(self.print_time));
        assert(s.subrange(4, 8) =~= u32_le(self.filament_0_usage));
        assert(s.subrange(8, 12) =~= u32_le(self.filament_1_usage));
        assert(s.subrange(12, 14) =~= u16_le(self.multi_extruder_type));
        assert(s.subrange(14, 16) =~= u16_le(self.layer_height));
        assert(s.subrange(16, 18) =~= u16_le(self.reserved0));
        assert(s.subrange(18, 20) =~= u16_le(self.perimeter_shells));
        assert(s.subrange(20, 22) =~= u16_le(self.print_speed));
        assert(s.subrange(22, 24) =~= u16_le(self.hotbed_temp));
        assert(s.subrange(24, 26) =~= u16_le(self.extruder_0_temp));
        assert(s.subrange(26, 28) =~= u16_le(self.extruder_1_temp));
        assert(s.subrange(28, 30) =~= u16_le(self.reserved1));
    }

    /// The bytes of the header that thirty bytes hold are those thirty bytes.
    pub proof fn lemma_bytes_parse(s: Seq<u8>)
        requires
            s.len() >= HEADER_LEN,
        ensures
            Header::parse(s).bytes() == s.subrange(0, 30),
    {
        lemma_u32_le_bytes(s.subrange(0, 4));
        lemma_u32_le_bytes(s.subrange(4, 8));
        lemma_u32_le_bytes(s.subrange(8, 12));
        lemma_u16_le_bytes(s.subrange(12, 14));
        lemma_u16_le_bytes(s.subrange(14, 16));
        lemma_u16_le_bytes(s.subrange(16, 18));
        lemma_u16_le_bytes(s.subrange(18, 20));
        lemma_u16_le_bytes(s.subrange(20, 22));
        lemma_u16_le_bytes(s.subrange(22, 24));
        lemma_u16_le_bytes(s.subrange(24, 26));
        lemma_u16_le_bytes(s.subrange(26, 28));
        lemma_u16_le_bytes(s.subrange(28, 30));
        assert(Header::parse(s).bytes() =~= s.subrange(0, 30));
    }

    /// Appends the thirty bytes of the header to `out`.
    pub fn write(&self, out: &mut Vec<u8>)
        ensures
            final(out)@ == old(out)@ + self.bytes(),
    {
        put_u32(out, self.print_time);
        put_u32(out, self.filament_0_usage);
        put_u32(out, self.filament_1_usage);
        put_u16(out, self.multi_extruder_type);
        put_u16(out, self.layer_height);
        put_u16(out, self.reserved0);
        put_u16(out, self.perimeter_shells);
        put_u16(out, self.print_speed);
        put_u16(out, self.hotbed_temp);
        put_u16(out, self.extruder_0_temp);
        put_u16(out, self.extruder_1_temp);
        put_u16(out, self.reserved1);
        assert(out@ =~= old(out)@ + self.bytes());
    }

    /// Reads the thirty bytes of a header, field by field. A file that ends
    /// within them is truncated.
    pub fn read(reader: &mut Reader<'_>) -> (r: Result<Header, Error>)
        requires
            old(reader).wf(),
        ensures
            final(reader).wf(),
            final(reader).source() == old(reader).source(),
            match r {
                Ok(header) => {
                    &&& old(reader).position() + HEADER_LEN <= old(reader).source().len()
                    &&& final(reader).position() == old(reader).position() + HEADER_LEN
                    &&& header == Header::parse(
                        old(reader).source().subrange(
                            old(reader).position() as int,
                            old(reader).position() + HEADER_LEN,
                        ),
                    )
                },
                Err(e) => {
                    &&& old(reader).position() + HEADER_LEN > old(reader).source().len()
                    &&& e@ == ErrorView::IO
                },
            },
    {
        let ghost source = reader.source();
        let ghost start = reader.position() as int;
        let print_time = reader.read_u32()?;
        let filament_0_usage = reader.read_u32()?;
        let filament_1_usage = reader.read_u32()?;
        let multi_extruder_type = reader.read_u16()?;
        let layer_height = reader.read_u16()?;
        let reserved0 = reader.read_u16()?;
        let perimeter_shells = reader.read_u16()?;
        let print_speed = reader.read_u16()?;
        let hotbed_temp = reader.read_u16()?;
        let extruder_0_temp = reader.read_u16()?;
        let extruder_1_temp = reader.read_u16()?;
        let reserved1 = reader.read_u16()?;
        proof {
            let s = source.subrange(start, start + 30);
            assert(s.subrange(0, 4) =~= source.subrange(start, start + 4));
            assert(s.subrange(4, 8) =~= source.subrange(start + 4, start + 8));
            assert(s.subrange(8, 12) =~= source.subrange(start + 8, start + 12));
            assert(s.subrange(12, 14) =~= source.subrange(start + 12, start + 14));
            assert(s.subrange(14, 16) =~= source.subrange(start + 14, start + 16));
            assert(s.subrange(16, 18) =~= source.subrange(start + 16, start + 18));
            assert(s.subrange(18, 20) =~= source.subrange(start + 18, start + 20));
            assert(s.subrange(20, 22) =~= source.subrange(start + 20, start + 22));
            assert(s.subrange(22, 24) =~= source.subrange(start + 22, start + 24));
            assert(s.subrange(24, 26) =~= source.subrange(start + 24, start + 26));
            assert(s.subrange(26, 28) =~= source.subrange(start + 26, start + 28));
            assert(s.subrange(28, 30) =~= source.subrange(start + 28, start + 30));
        }
        Ok(
            Header {
                print_time,
                filament_0_usage,
                filament_1_usage,
                multi_extruder_type,
                layer_height,
                reserved0,
                perimeter_shells,
                print_speed,
                hotbed_temp,
                extruder_0_temp,
                extruder_1_temp,
                reserved1,
            },
        )
    }
}

} // verus!
