use vstd::prelude::*;
use crate::rom::{
    accepts, declared_size, decodes_to, fails_with, magic, LoadError, RomHeader,
    INES_HEADER_SIZE, TRAINER_SIZE,
};

verus! {

/// A header whose bytes are the first 16 of `data` holds the counts and control bytes found there.
pub proof fn lemma_header_fields(h: RomHeader, data: Seq<u8>)
    requires
        data.len() >= INES_HEADER_SIZE,
        h.bytes() == data.subrange(0, INES_HEADER_SIZE as int),
    ensures
        h.num_prg_pages == data[4],
        h.num_chr_pages == data[5],
        h.control_byte1 == data[6],
        h.control_byte2 == data[7],
        h.total_size() == declared_size(data),
{
    assert(h.bytes()[4] == h.num_prg_pages);
    assert(h.bytes()[5] == h.num_chr_pages);
    assert(h.bytes()[6] == h.control_byte1);
    assert(h.bytes()[7] == h.control_byte2);
}

/// Changing any one of the four signature bytes of a well-formed image makes it
/// fail, and the only failure it can give is a bad signature.
pub proof fn lemma_signature_byte_changed(data: Seq<u8>, i: int, b: u8)
    requires
        accepts(data),
        0 <= i < 4,
        b != data[i],
    ensures
        !accepts(data.update(i, b)),
        forall|e: LoadError| #[trigger] fails_with(data.update(i, b), e) ==> e is BadSignature,
{
    let d = data.update(i, b);
    assert(d.subrange(0, 4)[i] == b);
    assert(data.subrange(0, 4)[i] == data[i]);
    assert(d.subrange(0, 4) != magic());
}

/// Cutting a well-formed image short of its declared length (but not short of its
/// header) makes it fail, and the only failure it can give is a truncated file.
pub proof fn lemma_truncated(data: Seq<u8>, n: int)
    requires
        accepts(data),
        INES_HEADER_SIZE <= n < declared_size(data),
    ensures
        !accepts(data.subrange(0, n)),
        forall|e: LoadError| #[trigger] fails_with(data.subrange(0, n), e) ==> e is TruncatedFile,
{
    let d = data.subrange(0, n);
    assert(d.subrange(0, 4) =~= data.subrange(0, 4));
    assert(d[4] == data[4] && d[5] == data[5] && d[6] == data[6]);
    assert(declared_size(d) == declared_size(data));
}

/// Bytes after the declared length change nothing: a well-formed image with anything
/// appended decodes exactly as its declared-length prefix does.
pub proof fn lemma_trailing_bytes_ignored(data: Seq<u8>, extra: Seq<u8>)
    requires
        accepts(data),
    ensures
        accepts(data + extra),
        forall|h: RomHeader, prg: Seq<u8>, chr: Seq<u8>|
            #[trigger] decodes_to(data + extra, h, prg, chr) <==> decodes_to(
                data.subrange(0, declared_size(data) as int),
                h,
                prg,
                chr,
            ),
{
    let total = declared_size(data) as int;
    let long = data + extra;
    let exact = data.subrange(0, total);
    assert(long.subrange(0, 4) =~= data.subrange(0, 4));
    assert(long[4] == data[4] && long[5] == data[5] && long[6] == data[6]);
    assert forall|a: int, b: int| 0 <= a <= b <= total implies #[trigger] long.subrange(a, b)
        == exact.subrange(a, b) by {
        assert(long.subrange(a, b) =~= exact.subrange(a, b));
    }
    assert forall|h: RomHeader, prg: Seq<u8>, chr: Seq<u8>|
        #[trigger] decodes_to(long, h, prg, chr) <==> decodes_to(exact, h, prg, chr) by {
        if h.bytes() == long.subrange(0, INES_HEADER_SIZE as int) {
            lemma_header_fields(h, long);
            assert(long.subrange(h.prg_start() as int, (h.prg_start() + h.prg_size()) as int)
                == exact.subrange(h.prg_start() as int, (h.prg_start() + h.prg_size()) as int));
            assert(long.subrange(h.chr_start() as int, (h.chr_start() + h.chr_size()) as int)
                == exact.subrange(h.chr_start() as int, (h.chr_start() + h.chr_size()) as int));
        }
    }
}

/// Of two images whose headers declare the same page counts, the one with a trainer
/// has its program and graphics data start exactly 512 bytes later.
pub proof fn lemma_trainer_shift(
    d1: Seq<u8>,
    h1: RomHeader,
    prg1: Seq<u8>,
    chr1: Seq<u8>,
    d2: Seq<u8>,
    h2: RomHeader,
    prg2: Seq<u8>,
    chr2: Seq<u8>,
)
    requires
        decodes_to(d1, h1, prg1, chr1),
        decodes_to(d2, h2, prg2, chr2),
        h1.num_prg_pages == h2.num_prg_pages,
        h1.num_chr_pages == h2.num_chr_pages,
        h1.spec_has_trainer(),
        !h2.spec_has_trainer(),
    ensures
        h1.prg_start() == h2.prg_start() + TRAINER_SIZE,
        h1.chr_start() == h2.chr_start() + TRAINER_SIZE,
        prg1 == d1.subrange(
            (h2.prg_start() + TRAINER_SIZE) as int,
            (h2.prg_start() + TRAINER_SIZE + h2.prg_size()) as int,
        ),
        prg2 == d2.subrange(h2.prg_start() as int, (h2.prg_start() + h2.prg_size()) as int),
{
}

} // verus!
