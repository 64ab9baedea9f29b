use vstd::prelude::*;

verus! {

#[verifier::external_type_specification]
#[verifier::external_body]
pub struct ExFileDescriptorProto(protobuf::descriptor::FileDescriptorProto);

/// Whether protobuf decoding of a `FileDescriptorProto` succeeds on the
/// given bytes. Decoding is a function of the bytes alone, so success on
/// equal bytes is one and the same outcome.
pub uninterp spec fn descriptor_parses(bytes: Seq<u8>) -> bool;

/// Relies on protobuf::Message::parse_from_bytes: decoding a
/// `FileDescriptorProto` from bytes is deterministic in the bytes.
/// The protobuf error case is mapped to `None`.
#[verifier::external_body]
fn parse_file_descriptor(bytes: &[u8]) -> (r: Option<protobuf::descriptor::FileDescriptorProto>)
    ensures
        r is Some <==> descriptor_parses(bytes@),
{
    match <protobuf::descriptor::FileDescriptorProto as protobuf::Message>::parse_from_bytes(bytes) {
        Ok(d) => Some(d),
        Err(_) => None,
    }
}

spec fn descriptor_chunk0() -> Seq<u8> {
    seq![
        0x0au8, 0x0fu8, 0x65u8, 0x76u8, 0x65u8, 0x6eu8, 0x74u8, 0x5fu8, 0x6du8, 0x61u8,
        0x70u8, 0x2eu8, 0x70u8, 0x72u8, 0x6fu8, 0x74u8, 0x6fu8, 0x2au8, 0xc3u8, 0x03u8,
        0x0au8, 0x0bu8, 0x46u8, 0x6fu8, 0x6cu8, 0x64u8, 0x65u8, 0x72u8, 0x45u8, 0x76u8,
        0x65u8, 0x6eu8,
    ]
}

fn push_descriptor_chunk0(v: &mut Vec<u8>)
    ensures
        final(v)@ == old(v)@ + descriptor_chunk0(),
{
    v.push(0x0a);
    v.push(0x0f);
    v.push(0x65);
    v.push(0x76);
    v.push(0x65);
    v.push(0x6e);
    v.push(0x74);
    v.push(0x5f);
    v.push(0x6d);
    v.push(0x61);
    v.push(0x70);
    v.push(0x2e);
    v.push(0x70);
    v.push(0x72);
    v.push(0x6f);
    v.push(0x74);
    v.push(0x6f);
    v.push(0x2a);
    v.push(0xc3);
    v.push(0x03);
    v.push(0x0a);
    v.push(0x0b);
    v.push(0x46);
    v.push(0x6f);
    v.push(0x6c);
    v.push(0x64);
    v.push(0x65);
    v.push(0x72);
    v.push(0x45);
    v.push(0x76);
    v.push(0x65);
    v.push(0x6e);
    proof {
        assert(v@ =~= old(v)@ + descriptor_chunk0());
    }
}

spec fn descriptor_chunk1() -> Seq<u8> {
    seq![
        0x74u8, 0x12u8, 0x13u8, 0x0au8, 0x0fu8, 0x43u8, 0x72u8, 0x65u8, 0x61u8, 0x74u8,
        0x65u8, 0x57u8, 0x6fu8, 0x72u8, 0x6bu8, 0x73u8, 0x70u8, 0x61u8, 0x63u8, 0x65u8,
        0x10u8, 0x00u8, 0x12u8, 0x14u8, 0x0au8, 0x10u8, 0x52u8, 0x65u8, 0x61u8, 0x64u8,
        0x43u8, 0x75u8,
    ]
}

fn push_descriptor_chunk1(v: &mut Vec<u8>)
    ensures
        final(v)@ == old(v)@ + descriptor_chunk1(),
{
    v.push(0x74);
    v.push(0x12);
    v.push(0x13);
    v.push(0x0a);
    v.push(0x0f);
    v.push(0x43);
    v.push(0x72);
    v.push(0x65);
    v.push(0x61);
    v.push(0x74);
    v.push(0x65);
    v.push(0x57);
    v.push(0x6f);
    v.push(0x72);
    v.push(0x6b);
    v.push(0x73);
    v.push(0x70);
    v.push(0x61);
    v.push(0x63);
    v.push(0x65);
    v.push(0x10);
    v.push(0x00);
    v.push(0x12);
    v.push(0x14);
    v.push(0x0a);
    v.push(0x10);
    v.push(0x52);
    v.push(0x65);
    v.push(0x61);
    v.push(0x64);
    v.push(0x43);
    v.push(0x75);
    proof {
        assert(v@ =~= old(v)@ + descriptor_chunk1());
    }
}

spec fn descriptor_chunk2() -> Seq<u8> {
    seq![
        0x72u8, 0x57u8, 0x6fu8, 0x72u8, 0x6bu8, 0x73u8, 0x70u8, 0x61u8, 0x63u8, 0x65u8,
        0x10u8, 0x01u8, 0x12u8, 0x12u8, 0x0au8, 0x0eu8, 0x52u8, 0x65u8, 0x61u8, 0x64u8,
        0x57u8, 0x6fu8, 0x72u8, 0x6bu8, 0x73u8, 0x70u8, 0x61u8, 0x63u8, 0x65u8, 0x73u8,
        0x10u8, 0x02u8,
    ]
}

fn push_descriptor_chunk2(v: &mut Vec<u8>)
    ensures
        final(v)@ == old(v)@ + descriptor_chunk2(),
{
    v.push(0x72);
    v.push(0x57);
    v.push(0x6f);
    v.push(0x72);
    v.push(0x6b);
    v.push(0x73);
    v.push(0x70);
    v.push(0x61);
    v.push(0x63);
    v.push(0x65);
    v.push(0x10);
    v.push(0x01);
    v.push(0x12);
    v.push(0x12);
    v.push(0x0a);
    v.push(0x0e);
    v.push(0x52);
    v.push(0x65);
    v.push(0x61);
    v.push(0x64);
    v.push(0x57);
    v.push(0x6f);
    v.push(0x72);
    v.push(0x6b);
    v.push(0x73);
    v.push(0x70);
    v.push(0x61);
    v.push(0x63);
    v.push(0x65);
    v.push(0x73);
    v.push(0x10);
    v.push(0x02);
    proof {
        assert(v@ =~= old(v)@ + descriptor_chunk2());
    }
}

spec fn descriptor_chunk3() -> Seq<u8> {
    seq![
        0x12u8, 0x13u8, 0x0au8, 0x0fu8, 0x44u8, 0x65u8, 0x6cu8, 0x65u8, 0x74u8, 0x65u8,
        0x57u8, 0x6fu8, 0x72u8, 0x6bu8, 0x73u8, 0x70u8, 0x61u8, 0x63u8, 0x65u8, 0x10u8,
        0x03u8, 0x12u8, 0x11u8, 0x0au8, 0x0du8, 0x4fu8, 0x70u8, 0x65u8, 0x6eu8, 0x57u8,
        0x6fu8, 0x72u8,
    ]
}

fn push_descriptor_chunk3(v: &mut Vec<u8>)
    ensures
        final(v)@ == old(v)@ + descriptor_chunk3(),
{
    v.push(0x12);
    v.push(0x13);
    v.push(0x0a);
    v.push(0x0f);
    v.push(0x44);
    v.push(0x65);
    v.push(0x6c);
    v.push(0x65);
    v.push(0x74);
    v.push(0x65);
    v.push(0x57);
    v.push(0x6f);
    v.push(0x72);
    v.push(0x6b);
    v.push(0x73);
    v.push(0x70);
    v.push(0x61);
    v.push(0x63);
    v.push(0x65);
    v.push(0x10);
    v.push(0x03);
    v.push(0x12);
    v.push(0x11);
    v.push(0x0a);
    v.push(0x0d);
    v.push(0x4f);
    v.push(0x70);
    v.push(0x65);
    v.push(0x6e);
    v.push(0x57);
    v.push(0x6f);
    v.push(0x72);
    proof {
        assert(v@ =~= old(v)@ + descriptor_chunk3());
    }
}

spec fn descriptor_chunk4() -> Seq<u8> {
    seq![
        0x6bu8, 0x73u8, 0x70u8, 0x61u8, 0x63u8, 0x65u8, 0x10u8, 0x04u8, 0x12u8, 0x15u8,
        0x0au8, 0x11u8, 0x52u8, 0x65u8, 0x61u8, 0x64u8, 0x57u8, 0x6fu8, 0x72u8, 0x6bu8,
        0x73u8, 0x70u8, 0x61u8, 0x63u8, 0x65u8, 0x41u8, 0x70u8, 0x70u8, 0x73u8, 0x10u8,
        0x05u8, 0x12u8,
    ]
}

fn push_descriptor_chunk4(v: &mut Vec<u8>)
    ensures
        final(v)@ == old(v)@ + descriptor_chunk4(),
{
    v.push(0x6b);
    v.push(0x73);
    v.push(0x70);
    v.push(0x61);
    v.push(0x63);
    v.push(0x65);
    v.push(0x10);
    v.push(0x04);
    v.push(0x12);
    v.push(0x15);
    v.push(0x0a);
    v.push(0x11);
    v.push(0x52);
    v.push(0x65);
    v.push(0x61);
    v.push(0x64);
    v.push(0x57);
    v.push(0x6f);
    v.push(0x72);
    v.push(0x6b);
    v.push(0x73);
    v.push(0x70);
    v.push(0x61);
    v.push(0x63);
    v.push(0x65);
    v.push(0x41);
    v.push(0x70);
    v.push(0x70);
    v.push(0x73);
    v.push(0x10);
    v.push(0x05);
    v.push(0x12);
    proof {
        assert(v@ =~= old(v)@ + descriptor_chunk4());
    }
}

spec fn descriptor_chunk5() -> Seq<u8> {
    seq![
        0x0du8, 0x0au8, 0x09u8, 0x43u8, 0x72u8, 0x65u8, 0x61u8, 0x74u8, 0x65u8, 0x41u8,
        0x70u8, 0x70u8, 0x10u8, 0x65u8, 0x12u8, 0x0du8, 0x0au8, 0x09u8, 0x44u8, 0x65u8,
        0x6cu8, 0x65u8, 0x74u8, 0x65u8, 0x41u8, 0x70u8, 0x70u8, 0x10u8, 0x66u8, 0x12u8,
        0x0bu8, 0x0au8,
    ]
}

fn push_descriptor_chunk5(v: &mut Vec<u8>)
    ensures
        final(v)@ == old(v)@ + descriptor_chunk5(),
{
    v.push(0x0d);
    v.push(0x0a);
    v.push(0x09);
    v.push(0x43);
    v.push(0x72);
    v.push(0x65);
    v.push(0x61);
    v.push(0x74);
    v.push(0x65);
    v.push(0x41);
    v.push(0x70);
    v.push(0x70);
    v.push(0x10);
    v.push(0x65);
    v.push(0x12);
    v.push(0x0d);
    v.push(0x0a);
    v.push(0x09);
    v.push(0x44);
    v.push(0x65);
    v.push(0x6c);
    v.push(0x65);
    v.push(0x74);
    v.push(0x65);
    v.push(0x41);
    v.push(0x70);
    v.push(0x70);
    v.push(0x10);
    v.push(0x66);
    v.push(0x12);
    v.push(0x0b);
    v.push(0x0a);
    proof {
        assert(v@ =~= old(v)@ + descriptor_chunk5());
    }
}

spec fn descriptor_chunk6() -> Seq<u8> {
    seq![
        0x07u8, 0x52u8, 0x65u8, 0x61u8, 0x64u8, 0x41u8, 0x70u8, 0x70u8, 0x10u8, 0x67u8,
        0x12u8, 0x0du8, 0x0au8, 0x09u8, 0x55u8, 0x70u8, 0x64u8, 0x61u8, 0x74u8, 0x65u8,
        0x41u8, 0x70u8, 0x70u8, 0x10u8, 0x68u8, 0x12u8, 0x0fu8, 0x0au8, 0x0au8, 0x43u8,
        0x72u8, 0x65u8,
    ]
}

fn push_descriptor_chunk6(v: &mut Vec<u8>)
    ensures
        final(v)@ == old(v)@ + descriptor_chunk6(),
{
    v.push(0x07);
    v.push(0x52);
    v.push(0x65);
    v.push(0x61);
    v.push(0x64);
    v.push(0x41);
    v.push(0x70);
    v.push(0x70);
    v.push(0x10);
    v.push(0x67);
    v.push(0x12);
    v.push(0x0d);
    v.push(0x0a);
    v.push(0x09);
    v.push(0x55);
    v.push(0x70);
    v.push(0x64);
    v.push(0x61);
    v.push(0x74);
    v.push(0x65);
    v.push(0x41);
    v.push(0x70);
    v.push(0x70);
    v.push(0x10);
    v.push(0x68);
    v.push(0x12);
    v.push(0x0f);
    v.push(0x0a);
    v.push(0x0a);
    v.push(0x43);
    v.push(0x72);
    v.push(0x65);
    proof {
        assert(v@ =~= old(v)@ + descriptor_chunk6());
    }
}

spec fn descriptor_chunk7() -> Seq<u8> {
    seq![
        0x61u8, 0x74u8, 0x65u8, 0x56u8, 0x69u8, 0x65u8, 0x77u8, 0x10u8, 0xc9u8, 0x01u8,
        0x12u8, 0x0du8, 0x0au8, 0x08u8, 0x52u8, 0x65u8, 0x61u8, 0x64u8, 0x56u8, 0x69u8,
        0x65u8, 0x77u8, 0x10u8, 0xcau8, 0x01u8, 0x12u8, 0x0fu8, 0x0au8, 0x0au8, 0x55u8,
        0x70u8, 0x64u8,
    ]
}

fn push_descriptor_chunk7(v: &mut Vec<u8>)
    ensures
        final(v)@ == old(v)@ + descriptor_chunk7(),
{
    v.push(0x61);
    v.push(0x74);
    v.push(0x65);
    v.push(0x56);
    v.push(0x69);
    v.push(0x65);
    v.push(0x77);
    v.push(0x10);
    v.push(0xc9);
    v.push(0x01);
    v.push(0x12);
    v.push(0x0d);
    v.push(0x0a);
    v.push(0x08);
    v.push(0x52);
    v.push(0x65);
    v.push(0x61);
    v.push(0x64);
    v.push(0x56);
    v.push(0x69);
    v.push(0x65);
    v.push(0x77);
    v.push(0x10);
    v.push(0xca);
    v.push(0x01);
    v.push(0x12);
    v.push(0x0f);
    v.push(0x0a);
    v.push(0x0a);
    v.push(0x55);
    v.push(0x70);
    v.push(0x64);
    proof {
        assert(v@ =~= old(v)@ + descriptor_chunk7());
    }
}

spec fn descriptor_chunk8() -> Seq<u8> {
    seq![
        0x61u8, 0x74u8, 0x65u8, 0x56u8, 0x69u8, 0x65u8, 0x77u8, 0x10u8, 0xcbu8, 0x01u8,
        0x12u8, 0x0fu8, 0x0au8, 0x0au8, 0x44u8, 0x65u8, 0x6cu8, 0x65u8, 0x74u8, 0x65u8,
        0x56u8, 0x69u8, 0x65u8, 0x77u8, 0x10u8, 0xccu8, 0x01u8, 0x12u8, 0x12u8, 0x0au8,
        0x0du8, 0x44u8,
    ]
}

fn push_descriptor_chunk8(v: &mut Vec<u8>)
    ensures
        final(v)@ == old(v)@ + descriptor_chunk8(),
{
    v.push(0x61);
    v.push(0x74);
    v.push(0x65);
    v.push(0x56);
    v.push(0x69);
    v.push(0x65);
    v.push(0x77);
    v.push(0x10);
    v.push(0xcb);
    v.push(0x01);
    v.push(0x12);
    v.push(0x0f);
    v.push(0x0a);
    v.push(0x0a);
    v.push(0x44);
    v.push(0x65);
    v.push(0x6c);
    v.push(0x65);
    v.push(0x74);
    v.push(0x65);
    v.push(0x56);
    v.push(0x69);
    v.push(0x65);
    v.push(0x77);
    v.push(0x10);
    v.push(0xcc);
    v.push(0x01);
    v.push(0x12);
    v.push(0x12);
    v.push(0x0a);
    v.push(0x0d);
    v.push(0x44);
    proof {
        assert(v@ =~= old(v)@ + descriptor_chunk8());
    }
}

spec fn descriptor_chunk9() -> Seq<u8> {
    seq![
        0x75u8, 0x70u8, 0x6cu8, 0x69u8, 0x63u8, 0x61u8, 0x74u8, 0x65u8, 0x56u8, 0x69u8,
        0x65u8, 0x77u8, 0x10u8, 0xcdu8, 0x01u8, 0x12u8, 0x0du8, 0x0au8, 0x08u8, 0x43u8,
        0x6fu8, 0x70u8, 0x79u8, 0x4cu8, 0x69u8, 0x6eu8, 0x6bu8, 0x10u8, 0xceu8, 0x01u8,
        0x12u8, 0x12u8,
    ]
}

fn push_descriptor_chunk9(v: &mut Vec<u8>)
    ensures
        final(v)@ == old(v)@ + descriptor_chunk9(),
{
    v.push(0x75);
    v.push(0x70);
    v.push(0x6c);
    v.push(0x69);
    v.push(0x63);
    v.push(0x61);
    v.push(0x74);
    v.push(0x65);
    v.push(0x56);
    v.push(0x69);
    v.push(0x65);
    v.push(0x77);
    v.push(0x10);
    v.push(0xcd);
    v.push(0x01);
    v.push(0x12);
    v.push(0x0d);
    v.push(0x0a);
    v.push(0x08);
    v.push(0x43);
    v.push(0x6f);
    v.push(0x70);
    v.push(0x79);
    v.push(0x4c);
    v.push(0x69);
    v.push(0x6e);
    v.push(0x6b);
    v.push(0x10);
    v.push(0xce);
    v.push(0x01);
    v.push(0x12);
    v.push(0x12);
    proof {
        assert(v@ =~= old(v)@ + descriptor_chunk9());
    }
}

spec fn descriptor_chunk10() -> Seq<u8> {
    seq![
        0x0au8, 0x0du8, 0x53u8, 0x65u8, 0x74u8, 0x4cu8, 0x61u8, 0x74u8, 0x65u8, 0x73u8,
        0x74u8, 0x56u8, 0x69u8, 0x65u8, 0x77u8, 0x10u8, 0xcfu8, 0x01u8, 0x12u8, 0x0eu8,
        0x0au8, 0x09u8, 0x43u8, 0x6cu8, 0x6fu8, 0x73u8, 0x65u8, 0x56u8, 0x69u8, 0x65u8,
        0x77u8, 0x10u8,
    ]
}

fn push_descriptor_chunk10(v: &mut Vec<u8>)
    ensures
        final(v)@ == old(v)@ + descriptor_chunk10(),
{
    v.push(0x0a);
    v.push(0x0d);
    v.push(0x53);
    v.push(0x65);
    v.push(0x74);
    v.push(0x4c);
    v.push(0x61);
    v.push(0x74);
    v.push(0x65);
    v.push(0x73);
    v.push(0x74);
    v.push(0x56);
    v.push(0x69);
    v.push(0x65);
    v.push(0x77);
    v.push(0x10);
    v.push(0xcf);
    v.push(0x01);
    v.push(0x12);
    v.push(0x0e);
    v.push(0x0a);
    v.push(0x09);
    v.push(0x43);
    v.push(0x6c);
    v.push(0x6f);
    v.push(0x73);
    v.push(0x65);
    v.push(0x56);
    v.push(0x69);
    v.push(0x65);
    v.push(0x77);
    v.push(0x10);
    proof {
        assert(v@ =~= old(v)@ + descriptor_chunk10());
    }
}

spec fn descriptor_chunk11() -> Seq<u8> {
    seq![
        0xd0u8, 0x01u8, 0x12u8, 0x13u8, 0x0au8, 0x0eu8, 0x4du8, 0x6fu8, 0x76u8, 0x65u8,
        0x46u8, 0x6fu8, 0x6cu8, 0x64u8, 0x65u8, 0x72u8, 0x49u8, 0x74u8, 0x65u8, 0x6du8,
        0x10u8, 0xd1u8, 0x01u8, 0x12u8, 0x0eu8, 0x0au8, 0x09u8, 0x52u8, 0x65u8, 0x61u8,
        0x64u8, 0x54u8,
    ]
}

fn push_descriptor_chunk11(v: &mut Vec<u8>)
    ensures
        final(v)@ == old(v)@ + descriptor_chunk11(),
{
    v.push(0xd0);
    v.push(0x01);
    v.push(0x12);
    v.push(0x13);
    v.push(0x0a);
    v.push(0x0e);
    v.push(0x4d);
    v.push(0x6f);
    v.push(0x76);
    v.push(0x65);
    v.push(0x46);
    v.push(0x6f);
    v.push(0x6c);
    v.push(0x64);
    v.push(0x65);
    v.push(0x72);
    v.push(0x49);
    v.push(0x74);
    v.push(0x65);
    v.push(0x6d);
    v.push(0x10);
    v.push(0xd1);
    v.push(0x01);
    v.push(0x12);
    v.push(0x0e);
    v.push(0x0a);
    v.push(0x09);
    v.push(0x52);
    v.push(0x65);
    v.push(0x61);
    v.push(0x64);
    v.push(0x54);
    proof {
        assert(v@ =~= old(v)@ + descriptor_chunk11());
    }
}

spec fn descriptor_chunk12() -> Seq<u8> {
    seq![
        0x72u8, 0x61u8, 0x73u8, 0x68u8, 0x10u8, 0xacu8, 0x02u8, 0x12u8, 0x11u8, 0x0au8,
        0x0cu8, 0x50u8, 0x75u8, 0x74u8, 0x62u8, 0x61u8, 0x63u8, 0x6bu8, 0x54u8, 0x72u8,
        0x61u8, 0x73u8, 0x68u8, 0x10u8, 0xadu8, 0x02u8, 0x12u8, 0x10u8, 0x0au8, 0x0bu8,
        0x44u8, 0x65u8,
    ]
}

fn push_descriptor_chunk12(v: &mut Vec<u8>)
    ensures
        final(v)@ == old(v)@ + descriptor_chunk12(),
{
    v.push(0x72);
    v.push(0x61);
    v.push(0x73);
    v.push(0x68);
    v.push(0x10);
    v.push(0xac);
    v.push(0x02);
    v.push(0x12);
    v.push(0x11);
    v.push(0x0a);
    v.push(0x0c);
    v.push(0x50);
    v.push(0x75);
    v.push(0x74);
    v.push(0x62);
    v.push(0x61);
    v.push(0x63);
    v.push(0x6b);
    v.push(0x54);
    v.push(0x72);
    v.push(0x61);
    v.push(0x73);
    v.push(0x68);
    v.push(0x10);
    v.push(0xad);
    v.push(0x02);
    v.push(0x12);
    v.push(0x10);
    v.push(0x0a);
    v.push(0x0b);
    v.push(0x44);
    v.push(0x65);
    proof {
        assert(v@ =~= old(v)@ + descriptor_chunk12());
    }
}

spec fn descriptor_chunk13() -> Seq<u8> {
    seq![
        0x6cu8, 0x65u8, 0x74u8, 0x65u8, 0x54u8, 0x72u8, 0x61u8, 0x73u8, 0x68u8, 0x10u8,
        0xaeu8, 0x02u8, 0x12u8, 0x14u8, 0x0au8, 0x0fu8, 0x52u8, 0x65u8, 0x73u8, 0x74u8,
        0x6fu8, 0x72u8, 0x65u8, 0x41u8, 0x6cu8, 0x6cu8, 0x54u8, 0x72u8, 0x61u8, 0x73u8,
        0x68u8, 0x10u8,
    ]
}

fn push_descriptor_chunk13(v: &mut Vec<u8>)
    ensures
        final(v)@ == old(v)@ + descriptor_chunk13(),
{
    v.push(0x6c);
    v.push(0x65);
    v.push(0x74);
    v.push(0x65);
    v.push(0x54);
    v.push(0x72);
    v.push(0x61);
    v.push(0x73);
    v.push(0x68);
    v.push(0x10);
    v.push(0xae);
    v.push(0x02);
    v.push(0x12);
    v.push(0x14);
    v.push(0x0a);
    v.push(0x0f);
    v.push(0x52);
    v.push(0x65);
    v.push(0x73);
    v.push(0x74);
    v.push(0x6f);
    v.push(0x72);
    v.push(0x65);
    v.push(0x41);
    v.push(0x6c);
    v.push(0x6c);
    v.push(0x54);
    v.push(0x72);
    v.push(0x61);
    v.push(0x73);
    v.push(0x68);
    v.push(0x10);
    proof {
        assert(v@ =~= old(v)@ + descriptor_chunk13());
    }
}

spec fn descriptor_chunk14() -> Seq<u8> {
    seq![
        0xafu8, 0x02u8, 0x12u8, 0x13u8, 0x0au8, 0x0eu8, 0x44u8, 0x65u8, 0x6cu8, 0x65u8,
        0x74u8, 0x65u8, 0x41u8, 0x6cu8, 0x6cu8, 0x54u8, 0x72u8, 0x61u8, 0x73u8, 0x68u8,
        0x10u8, 0xb0u8, 0x02u8, 0x62u8, 0x06u8, 0x70u8, 0x72u8, 0x6fu8, 0x74u8, 0x6fu8,
        0x33u8,
    ]
}

fn push_descriptor_chunk14(v: &mut Vec<u8>)
    ensures
        final(v)@ == old(v)@ + descriptor_chunk14(),
{
    v.push(0xaf);
    v.push(0x02);
    v.push(0x12);
    v.push(0x13);
    v.push(0x0a);
    v.push(0x0e);
    v.push(0x44);
    v.push(0x65);
    v.push(0x6c);
    v.push(0x65);
    v.push(0x74);
    v.push(0x65);
    v.push(0x41);
    v.push(0x6c);
    v.push(0x6c);
    v.push(0x54);
    v.push(0x72);
    v.push(0x61);
    v.push(0x73);
    v.push(0x68);
    v.push(0x10);
    v.push(0xb0);
    v.push(0x02);
    v.push(0x62);
    v.push(0x06);
    v.push(0x70);
    v.push(0x72);
    v.push(0x6f);
    v.push(0x74);
    v.push(0x6f);
    v.push(0x33);
    proof {
        assert(v@ =~= old(v)@ + descriptor_chunk14());
    }
}

/// The embedded schema artifact for the folder event domain, byte for
/// byte as the schema compiler serialized it.
pub closed spec fn descriptor_data_spec() -> Seq<u8> {
    descriptor_chunk0() + descriptor_chunk1() + descriptor_chunk2() + descriptor_chunk3() + descriptor_chunk4() + descriptor_chunk5() + descriptor_chunk6() + descriptor_chunk7() + descriptor_chunk8() + descriptor_chunk9() + descriptor_chunk10() + descriptor_chunk11() + descriptor_chunk12() + descriptor_chunk13() + descriptor_chunk14()
}

/// The bytes of the embedded schema artifact.
pub fn descriptor_proto_data() -> (r: Vec<u8>)
    ensures
        r@ == descriptor_data_spec(),
{
    let mut v: Vec<u8> = Vec::new();
    push_descriptor_chunk0(&mut v);
    push_descriptor_chunk1(&mut v);
    push_descriptor_chunk2(&mut v);
    push_descriptor_chunk3(&mut v);
    push_descriptor_chunk4(&mut v);
    push_descriptor_chunk5(&mut v);
    push_descriptor_chunk6(&mut v);
    push_descriptor_chunk7(&mut v);
    push_descriptor_chunk8(&mut v);
    push_descriptor_chunk9(&mut v);
    push_descriptor_chunk10(&mut v);
    push_descriptor_chunk11(&mut v);
    push_descriptor_chunk12(&mut v);
    push_descriptor_chunk13(&mut v);
    push_descriptor_chunk14(&mut v);
    proof {
        assert(v@ =~= descriptor_data_spec());
    }
    v
}

/// Parse the embedded schema artifact with the protobuf runtime.
/// A `None` result reports a corrupt artifact instead of crashing.
pub fn parse_descriptor_proto() -> (r: Option<protobuf::descriptor::FileDescriptorProto>)
    ensures
        r is Some <==> descriptor_parses(descriptor_data_spec()),
{
    let data = descriptor_proto_data();
    parse_file_descriptor(data.as_slice())
}

/// The parsed form of the embedded schema artifact.
pub fn file_descriptor_proto() -> (r: Option<protobuf::descriptor::FileDescriptorProto>)
    ensures
        r is Some <==> descriptor_parses(descriptor_data_spec()),
{
    parse_descriptor_proto()
}

} // verus!
