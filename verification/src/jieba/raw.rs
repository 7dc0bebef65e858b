//! The handle type of the native segmenter.
use vstd::prelude::*;

verus! {

/// The segmenter object of the native library. It is never built on this
/// side: values of it exist only behind pointers that the library hands out.
#[derive(Debug, Copy, Clone)]
pub struct jieba_t {
    _unused: [u8; 0],
}

} // verus!
