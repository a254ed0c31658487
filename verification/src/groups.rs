//! The registry of standard groups: a fixed table of vetted safe-prime
//! triples `(p, q, g)` at common security levels, so that deployments can
//! avoid costly on-the-fly generation. Each entry satisfies `p = 2q + 1`
//! with `p` and `q` prime and `g = 4` of order `q`; the entries are
//! constants, and lookup is a pure function of the identifier.
//!
//! `Test256` is a small 256-bit group for tests and demonstrations only —
//! far too small for production security.

use vstd::prelude::*;

use crate::arith::be_val;
use crate::arith::BigInt;
use crate::ElGamalPP;

verus! {

/// The security levels the registry offers.
#[derive(Copy, Clone, Debug, PartialEq, Eq)]
pub enum GroupId {
    /// A 256-bit test group; not for production use.
    Test256,
    /// A 1024-bit group.
    Bits1024,
    /// A 2048-bit group.
    Bits2048,
}

/// Big-endian bytes of `p` for the `Test256` group.
pub open spec fn test256_p() -> Seq<u8> {
    seq![172u8, 254u8, 176u8, 15u8, 30u8, 231u8, 231u8, 32u8, 232u8, 38u8, 62u8, 88u8, 229u8, 239u8, 233u8, 135u8, 120u8, 210u8, 118u8, 91u8, 160u8, 188u8, 0u8, 37u8, 2u8, 43u8, 141u8, 104u8, 251u8, 143u8, 200u8, 87u8]
}

/// Big-endian bytes of `q` for the `Test256` group.
pub open spec fn test256_q() -> Seq<u8> {
    seq![86u8, 127u8, 88u8, 7u8, 143u8, 115u8, 243u8, 144u8, 116u8, 19u8, 31u8, 44u8, 114u8, 247u8, 244u8, 195u8, 188u8, 105u8, 59u8, 45u8, 208u8, 94u8, 0u8, 18u8, 129u8, 21u8, 198u8, 180u8, 125u8, 199u8, 228u8, 43u8]
}

/// Big-endian bytes of `g` for the `Test256` group.
pub open spec fn test256_g() -> Seq<u8> {
    seq![4u8]
}

/// Big-endian bytes of `p` for the `Bits1024` group.
pub open spec fn bits1024_p() -> Seq<u8> {
    seq![228u8, 1u8, 80u8, 189u8, 244u8, 115u8, 68u8, 46u8, 114u8, 199u8, 148u8, 155u8, 188u8, 181u8, 178u8, 178u8, 87u8, 7u8, 137u8, 43u8, 186u8, 242u8, 157u8, 159u8, 11u8, 202u8, 39u8, 231u8, 198u8, 177u8, 51u8, 193u8, 34u8, 196u8, 174u8, 226u8, 191u8, 61u8, 147u8, 9u8, 43u8, 165u8, 160u8, 68u8, 53u8, 103u8, 195u8, 178u8, 45u8, 47u8, 137u8, 49u8, 115u8, 160u8, 212u8, 251u8, 8u8, 216u8, 98u8, 243u8, 199u8, 30u8, 133u8, 137u8, 152u8, 165u8, 36u8, 192u8, 238u8, 16u8, 88u8, 84u8, 183u8, 223u8, 103u8, 37u8, 227u8, 149u8, 154u8, 123u8, 106u8, 91u8, 193u8, 50u8, 24u8, 90u8, 27u8, 214u8, 119u8, 241u8, 126u8, 50u8, 97u8, 233u8, 148u8, 234u8, 27u8, 159u8, 251u8, 0u8, 96u8, 235u8, 35u8, 187u8, 242u8, 66u8, 153u8, 88u8, 146u8, 126u8, 140u8, 236u8, 139u8, 184u8, 123u8, 255u8, 41u8, 155u8, 21u8, 134u8, 209u8, 45u8, 141u8, 71u8, 81u8, 199u8, 220u8, 91u8]
}

/// Big-endian bytes of `q` for the `Bits1024` group.
pub open spec fn bits1024_q() -> Seq<u8> {
    seq![114u8, 0u8, 168u8, 94u8, 250u8, 57u8, 162u8, 23u8, 57u8, 99u8, 202u8, 77u8, 222u8, 90u8, 217u8, 89u8, 43u8, 131u8, 196u8, 149u8, 221u8, 121u8, 78u8, 207u8, 133u8, 229u8, 19u8, 243u8, 227u8, 88u8, 153u8, 224u8, 145u8, 98u8, 87u8, 113u8, 95u8, 158u8, 201u8, 132u8, 149u8, 210u8, 208u8, 34u8, 26u8, 179u8, 225u8, 217u8, 22u8, 151u8, 196u8, 152u8, 185u8, 208u8, 106u8, 125u8, 132u8, 108u8, 49u8, 121u8, 227u8, 143u8, 66u8, 196u8, 204u8, 82u8, 146u8, 96u8, 119u8, 8u8, 44u8, 42u8, 91u8, 239u8, 179u8, 146u8, 241u8, 202u8, 205u8, 61u8, 181u8, 45u8, 224u8, 153u8, 12u8, 45u8, 13u8, 235u8, 59u8, 248u8, 191u8, 25u8, 48u8, 244u8, 202u8, 117u8, 13u8, 207u8, 253u8, 128u8, 48u8, 117u8, 145u8, 221u8, 249u8, 33u8, 76u8, 172u8, 73u8, 63u8, 70u8, 118u8, 69u8, 220u8, 61u8, 255u8, 148u8, 205u8, 138u8, 195u8, 104u8, 150u8, 198u8, 163u8, 168u8, 227u8, 238u8, 45u8]
}

/// Big-endian bytes of `g` for the `Bits1024` group.
pub open spec fn bits1024_g() -> Seq<u8> {
    seq![4u8]
}

/// Big-endian bytes of `p` for the `Bits2048` group.
pub open spec fn bits2048_p() -> Seq<u8> {
    seq![150u8, 14u8, 254u8, 38u8, 134u8, 232u8, 52u8, 104u8, 70u8, 113u8, 48u8, 169u8, 216u8, 215u8, 73u8, 233u8, 203u8, 203u8, 149u8, 117u8, 202u8, 203u8, 160u8, 36u8, 50u8, 119u8, 150u8, 93u8, 177u8, 134u8, 84u8, 142u8, 234u8, 98u8, 55u8, 218u8, 174u8, 206u8, 0u8, 147u8, 187u8, 41u8, 12u8, 80u8, 16u8, 253u8, 23u8, 17u8, 90u8, 192u8, 146u8, 84u8, 165u8, 172u8, 53u8, 89u8, 145u8, 122u8, 233u8, 185u8, 188u8, 231u8, 51u8, 235u8, 127u8, 7u8, 47u8, 185u8, 185u8, 82u8, 42u8, 108u8, 26u8, 88u8, 99u8, 244u8, 149u8, 24u8, 95u8, 148u8, 196u8, 227u8, 97u8, 204u8, 110u8, 17u8, 202u8, 204u8, 63u8, 17u8, 2u8, 203u8, 173u8, 86u8, 162u8, 186u8, 209u8, 141u8, 9u8, 168u8, 111u8, 130u8, 200u8, 214u8, 227u8, 216u8, 31u8, 24u8, 172u8, 83u8, 43u8, 224u8, 2u8, 142u8, 153u8, 220u8, 205u8, 44u8, 148u8, 186u8, 31u8, 209u8, 131u8, 208u8, 168u8, 149u8, 138u8, 132u8, 148u8, 121u8, 162u8, 57u8, 103u8, 27u8, 211u8, 21u8, 160u8, 27u8, 89u8, 55u8, 107u8, 102u8, 254u8, 39u8, 195u8, 252u8, 10u8, 22u8, 178u8, 226u8, 40u8, 39u8, 69u8, 58u8, 11u8, 178u8, 56u8, 180u8, 0u8, 131u8, 231u8, 128u8, 188u8, 49u8, 185u8, 83u8, 250u8, 90u8, 243u8, 24u8, 26u8, 205u8, 147u8, 129u8, 233u8, 210u8, 40u8, 179u8, 19u8, 164u8, 241u8, 156u8, 196u8, 176u8, 203u8, 198u8, 210u8, 122u8, 104u8, 235u8, 212u8, 164u8, 154u8, 184u8, 67u8, 60u8, 59u8, 118u8, 56u8, 183u8, 33u8, 131u8, 149u8, 214u8, 174u8, 234u8, 47u8, 35u8, 134u8, 80u8, 18u8, 172u8, 152u8, 208u8, 221u8, 101u8, 149u8, 3u8, 28u8, 8u8, 182u8, 71u8, 58u8, 211u8, 44u8, 151u8, 139u8, 84u8, 154u8, 179u8, 108u8, 9u8, 154u8, 86u8, 138u8, 189u8, 96u8, 135u8, 2u8, 104u8, 239u8, 34u8, 228u8, 27u8, 228u8, 80u8, 93u8, 144u8, 16u8, 180u8, 34u8, 23u8, 254u8, 124u8, 97u8, 75u8]
}

/// Big-endian bytes of `q` for the `Bits2048` group.
pub open spec fn bits2048_q() -> Seq<u8> {
    seq![75u8, 7u8, 127u8, 19u8, 67u8, 116u8, 26u8, 52u8, 35u8, 56u8, 152u8, 84u8, 236u8, 107u8, 164u8, 244u8, 229u8, 229u8, 202u8, 186u8, 229u8, 101u8, 208u8, 18u8, 25u8, 59u8, 203u8, 46u8, 216u8, 195u8, 42u8, 71u8, 117u8, 49u8, 27u8, 237u8, 87u8, 103u8, 0u8, 73u8, 221u8, 148u8, 134u8, 40u8, 8u8, 126u8, 139u8, 136u8, 173u8, 96u8, 73u8, 42u8, 82u8, 214u8, 26u8, 172u8, 200u8, 189u8, 116u8, 220u8, 222u8, 115u8, 153u8, 245u8, 191u8, 131u8, 151u8, 220u8, 220u8, 169u8, 21u8, 54u8, 13u8, 44u8, 49u8, 250u8, 74u8, 140u8, 47u8, 202u8, 98u8, 113u8, 176u8, 230u8, 55u8, 8u8, 229u8, 102u8, 31u8, 136u8, 129u8, 101u8, 214u8, 171u8, 81u8, 93u8, 104u8, 198u8, 132u8, 212u8, 55u8, 193u8, 100u8, 107u8, 113u8, 236u8, 15u8, 140u8, 86u8, 41u8, 149u8, 240u8, 1u8, 71u8, 76u8, 238u8, 102u8, 150u8, 74u8, 93u8, 15u8, 232u8, 193u8, 232u8, 84u8, 74u8, 197u8, 66u8, 74u8, 60u8, 209u8, 28u8, 179u8, 141u8, 233u8, 138u8, 208u8, 13u8, 172u8, 155u8, 181u8, 179u8, 127u8, 19u8, 225u8, 254u8, 5u8, 11u8, 89u8, 113u8, 20u8, 19u8, 162u8, 157u8, 5u8, 217u8, 28u8, 90u8, 0u8, 65u8, 243u8, 192u8, 94u8, 24u8, 220u8, 169u8, 253u8, 45u8, 121u8, 140u8, 13u8, 102u8, 201u8, 192u8, 244u8, 233u8, 20u8, 89u8, 137u8, 210u8, 120u8, 206u8, 98u8, 88u8, 101u8, 227u8, 105u8, 61u8, 52u8, 117u8, 234u8, 82u8, 77u8, 92u8, 33u8, 158u8, 29u8, 187u8, 28u8, 91u8, 144u8, 193u8, 202u8, 235u8, 87u8, 117u8, 23u8, 145u8, 195u8, 40u8, 9u8, 86u8, 76u8, 104u8, 110u8, 178u8, 202u8, 129u8, 142u8, 4u8, 91u8, 35u8, 157u8, 105u8, 150u8, 75u8, 197u8, 170u8, 77u8, 89u8, 182u8, 4u8, 205u8, 43u8, 69u8, 94u8, 176u8, 67u8, 129u8, 52u8, 119u8, 145u8, 114u8, 13u8, 242u8, 40u8, 46u8, 200u8, 8u8, 90u8, 17u8, 11u8, 255u8, 62u8, 48u8, 165u8]
}

/// Big-endian bytes of `g` for the `Bits2048` group.
pub open spec fn bits2048_g() -> Seq<u8> {
    seq![4u8]
}

impl ElGamalPP {
    /// Looks the identifier up in the registry and returns its parameters.
    /// The entries are constants; no generation and no mutation happens
    /// here, and `validate` accepts every entry.
    pub fn from_registry(id: GroupId) -> (r: ElGamalPP)
        ensures
            match id {
                GroupId::Test256 => r.p.value() == be_val(test256_p())
                    && r.q.value() == be_val(test256_q()) && r.g.value() == be_val(
                    test256_g(),
                ),
                GroupId::Bits1024 => r.p.value() == be_val(bits1024_p())
                    && r.q.value() == be_val(bits1024_q()) && r.g.value() == be_val(
                    bits1024_g(),
                ),
                GroupId::Bits2048 => r.p.value() == be_val(bits2048_p())
                    && r.q.value() == be_val(bits2048_q()) && r.g.value() == be_val(
                    bits2048_g(),
                ),
            },
    {
        match id {
            GroupId::Test256 => {
                let p: Vec<u8> = vec![172, 254, 176, 15, 30, 231, 231, 32, 232, 38, 62, 88, 229, 239, 233, 135, 120, 210, 118, 91, 160, 188, 0, 37, 2, 43, 141, 104, 251, 143, 200, 87];
                let q: Vec<u8> = vec![86, 127, 88, 7, 143, 115, 243, 144, 116, 19, 31, 44, 114, 247, 244, 195, 188, 105, 59, 45, 208, 94, 0, 18, 129, 21, 198, 180, 125, 199, 228, 43];
                let g: Vec<u8> = vec![4];
                proof {
                    assert(p@ =~= test256_p());
                    assert(q@ =~= test256_q());
                    assert(g@ =~= test256_g());
                }
                ElGamalPP {
                    g: BigInt::from_bytes(g),
                    q: BigInt::from_bytes(q),
                    p: BigInt::from_bytes(p),
                }
            },
            GroupId::Bits1024 => {
                let p: Vec<u8> = vec![228, 1, 80, 189, 244, 115, 68, 46, 114, 199, 148, 155, 188, 181, 178, 178, 87, 7, 137, 43, 186, 242, 157, 159, 11, 202, 39, 231, 198, 177, 51, 193, 34, 196, 174, 226, 191, 61, 147, 9, 43, 165, 160, 68, 53, 103, 195, 178, 45, 47, 137, 49, 115, 160, 212, 251, 8, 216, 98, 243, 199, 30, 133, 137, 152, 165, 36, 192, 238, 16, 88, 84, 183, 223, 103, 37, 227, 149, 154, 123, 106, 91, 193, 50, 24, 90, 27, 214, 119, 241, 126, 50, 97, 233, 148, 234, 27, 159, 251, 0, 96, 235, 35, 187, 242, 66, 153, 88, 146, 126, 140, 236, 139, 184, 123, 255, 41, 155, 21, 134, 209, 45, 141, 71, 81, 199, 220, 91];
                let q: Vec<u8> = vec![114, 0, 168, 94, 250, 57, 162, 23, 57, 99, 202, 77, 222, 90, 217, 89, 43, 131, 196, 149, 221, 121, 78, 207, 133, 229, 19, 243, 227, 88, 153, 224, 145, 98, 87, 113, 95, 158, 201, 132, 149, 210, 208, 34, 26, 179, 225, 217, 22, 151, 196, 152, 185, 208, 106, 125, 132, 108, 49, 121, 227, 143, 66, 196, 204, 82, 146, 96, 119, 8, 44, 42, 91, 239, 179, 146, 241, 202, 205, 61, 181, 45, 224, 153, 12, 45, 13, 235, 59, 248, 191, 25, 48, 244, 202, 117, 13, 207, 253, 128, 48, 117, 145, 221, 249, 33, 76, 172, 73, 63, 70, 118, 69, 220, 61, 255, 148, 205, 138, 195, 104, 150, 198, 163, 168, 227, 238, 45];
                let g: Vec<u8> = vec![4];
                proof {
                    assert(p@ =~= bits1024_p());
                    assert(q@ =~= bits1024_q());
                    assert(g@ =~= bits1024_g());
                }
                ElGamalPP {
                    g: BigInt::from_bytes(g),
                    q: BigInt::from_bytes(q),
                    p: BigInt::from_bytes(p),
                }
            },
            GroupId::Bits2048 => {
                let p: Vec<u8> = vec![150, 14, 254, 38, 134, 232, 52, 104, 70, 113, 48, 169, 216, 215, 73, 233, 203, 203, 149, 117, 202, 203, 160, 36, 50, 119, 150, 93, 177, 134, 84, 142, 234, 98, 55, 218, 174, 206, 0, 147, 187, 41, 12, 80, 16, 253, 23, 17, 90, 192, 146, 84, 165, 172, 53, 89, 145, 122, 233, 185, 188, 231, 51, 235, 127, 7, 47, 185, 185, 82, 42, 108, 26, 88, 99, 244, 149, 24, 95, 148, 196, 227, 97, 204, 110, 17, 202, 204, 63, 17, 2, 203, 173, 86, 162, 186, 209, 141, 9, 168, 111, 130, 200, 214, 227, 216, 31, 24, 172, 83, 43, 224, 2, 142, 153, 220, 205, 44, 148, 186, 31, 209, 131, 208, 168, 149, 138, 132, 148, 121, 162, 57, 103, 27, 211, 21, 160, 27, 89, 55, 107, 102, 254, 39, 195, 252, 10, 22, 178, 226, 40, 39, 69, 58, 11, 178, 56, 180, 0, 131, 231, 128, 188, 49, 185, 83, 250, 90, 243, 24, 26, 205, 147, 129, 233, 210, 40, 179, 19, 164, 241, 156, 196, 176, 203, 198, 210, 122, 104, 235, 212, 164, 154, 184, 67, 60, 59, 118, 56, 183, 33, 131, 149, 214, 174, 234, 47, 35, 134, 80, 18, 172, 152, 208, 221, 101, 149, 3, 28, 8, 182, 71, 58, 211, 44, 151, 139, 84, 154, 179, 108, 9, 154, 86, 138, 189, 96, 135, 2, 104, 239, 34, 228, 27, 228, 80, 93, 144, 16, 180, 34, 23, 254, 124, 97, 75];
                let q: Vec<u8> = vec![75, 7, 127, 19, 67, 116, 26, 52, 35, 56, 152, 84, 236, 107, 164, 244, 229, 229, 202, 186, 229, 101, 208, 18, 25, 59, 203, 46, 216, 195, 42, 71, 117, 49, 27, 237, 87, 103, 0, 73, 221, 148, 134, 40, 8, 126, 139, 136, 173, 96, 73, 42, 82, 214, 26, 172, 200, 189, 116, 220, 222, 115, 153, 245, 191, 131, 151, 220, 220, 169, 21, 54, 13, 44, 49, 250, 74, 140, 47, 202, 98, 113, 176, 230, 55, 8, 229, 102, 31, 136, 129, 101, 214, 171, 81, 93, 104, 198, 132, 212, 55, 193, 100, 107, 113, 236, 15, 140, 86, 41, 149, 240, 1, 71, 76, 238, 102, 150, 74, 93, 15, 232, 193, 232, 84, 74, 197, 66, 74, 60, 209, 28, 179, 141, 233, 138, 208, 13, 172, 155, 181, 179, 127, 19, 225, 254, 5, 11, 89, 113, 20, 19, 162, 157, 5, 217, 28, 90, 0, 65, 243, 192, 94, 24, 220, 169, 253, 45, 121, 140, 13, 102, 201, 192, 244, 233, 20, 89, 137, 210, 120, 206, 98, 88, 101, 227, 105, 61, 52, 117, 234, 82, 77, 92, 33, 158, 29, 187, 28, 91, 144, 193, 202, 235, 87, 117, 23, 145, 195, 40, 9, 86, 76, 104, 110, 178, 202, 129, 142, 4, 91, 35, 157, 105, 150, 75, 197, 170, 77, 89, 182, 4, 205, 43, 69, 94, 176, 67, 129, 52, 119, 145, 114, 13, 242, 40, 46, 200, 8, 90, 17, 11, 255, 62, 48, 165];
                let g: Vec<u8> = vec![4];
                proof {
                    assert(p@ =~= bits2048_p());
                    assert(q@ =~= bits2048_q());
                    assert(g@ =~= bits2048_g());
                }
                ElGamalPP {
                    g: BigInt::from_bytes(g),
                    q: BigInt::from_bytes(q),
                    p: BigInt::from_bytes(p),
                }
            },
        }
    }
}

} // verus!
