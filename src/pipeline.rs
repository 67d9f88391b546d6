use vstd::prelude::*;
use crate::geometry::{
    bbox_of, bounding_box, fallback_corners, fallback_points, BoundingBox, CornerData, Point,
};

verus! {

/// One decoded code: its text, its four corners and their enclosure.
#[derive(Clone, Debug)]
pub struct DetectedCode {
    pub text: String,
    pub points: Vec<Point>,
    pub bbox: BoundingBox,
}

/// The corners of the `i`-th code: its own corner data where the detector
/// reported some, else the centred square.
pub open spec fn code_corners(corners: Seq<CornerData>, i: int, width: nat, height: nat) -> Seq<
    Point,
> {
    if i < corners.len() {
        corners[i].corner_points(width, height)
    } else {
        fallback_points(width, height)
    }
}

/// What `codes` must be for the detector's `texts` and `corners` on a
/// `width` by `height` image.
pub open spec fn codes_match(
    codes: Seq<DetectedCode>,
    texts: Seq<String>,
    corners: Seq<CornerData>,
    width: nat,
    height: nat,
) -> bool {
    &&& codes.len() == texts.len()
    &&& forall|i: int|
        0 <= i < codes.len() ==> {
            &&& (#[trigger] codes[i]).text@ == texts[i]@
            &&& codes[i].points@ == code_corners(corners, i, width, height)
            &&& codes[i].bbox == bbox_of(codes[i].points@)
        }
}

/// Pairs each decoded text with the corners the detector reported at the
/// same index and derives its enclosure.
pub fn build_codes(texts: &Vec<String>, corners: &Vec<CornerData>, width: u32, height: u32) -> (r:
    Vec<DetectedCode>)
    ensures
        codes_match(r@, texts@, corners@, width as nat, height as nat),
{
    let mut codes: Vec<DetectedCode> = Vec::new();
    let mut i: usize = 0;
    while i < texts.len()
        invariant
            i <= texts@.len(),
            codes_match(codes@, texts@.take(i as int), corners@, width as nat, height as nat),
        decreases texts@.len() - i,
    {
        let points = if i < corners.len() {
            corners[i].corners(width, height)
        } else {
            fallback_corners(width, height)
        };
        let bbox = bounding_box(&points);
        let code = DetectedCode { text: texts[i].clone(), points, bbox };
        codes.push(code);
        i = i + 1;
        assert(texts@.take(i as int).drop_last() =~= texts@.take(i - 1));
    }
    assert(texts@.take(i as int) =~= texts@);
    codes
}

/// Pixel size of a decoded image.
#[derive(Clone, Copy, Debug, PartialEq, Eq, Structural)]
pub struct ImageSize {
    pub width: u32,
    pub height: u32,
}

/// Per-stage timings of one request, in nanoseconds since it was received.
#[derive(Clone, Copy, Debug, PartialEq, Eq, Structural)]
pub struct DetectionStatistics {
    pub decode_ns: u64,
    pub detection_ns: u64,
    pub total_ns: u64,
    pub pool_acquisition_ns: u64,
    pub image_width: u32,
    pub image_height: u32,
}

impl DetectionStatistics {
    /// The whole request took at least as long as its three timed stages.
    pub open spec fn wf(&self) -> bool {
        self.total_ns >= self.decode_ns + self.pool_acquisition_ns + self.detection_ns
    }
}

/// Outcome of one request that got as far as decoding.
#[derive(Debug)]
pub struct DetectionResult {
    pub success: bool,
    pub codes: Vec<DetectedCode>,
    pub statistics: DetectionStatistics,
}

impl DetectionResult {
    pub open spec fn wf(&self) -> bool {
        &&& self.statistics.wf()
        &&& !self.success ==> self.codes@.len() == 0
    }

    /// Number of codes found.
    pub fn count(&self) -> (r: usize)
        ensures
            r == self.codes@.len(),
    {
        self.codes.len()
    }
}

/// Where a request stands.
#[derive(Clone, Copy, Debug, PartialEq, Eq, Structural)]
pub enum Stage {
    Decoding,
    Acquiring,
    Detecting,
    Complete,
}

/// The linear progress of one request: decode, borrow a detector, detect.
/// Each event carries the clock readings at the start and end of its stage;
/// readings that run backwards count as no time passing.
#[derive(Debug)]
pub struct Pipeline {
    stage: Stage,
    clock: u64,
    decode_ns: u64,
    acquire_ns: u64,
    size: ImageSize,
}

/// The later of two readings.
fn later(a: u64, b: u64) -> (r: u64)
    ensures
        r == if a >= b { a } else { b },
{
    if a >= b { a } else { b }
}

pub open spec fn later_of(a: u64, b: u64) -> u64 {
    if a >= b { a } else { b }
}

impl Pipeline {
    pub closed spec fn stage(&self) -> Stage {
        self.stage
    }

    /// Latest clock reading taken into account so far.
    pub closed spec fn clock(&self) -> u64 {
        self.clock
    }

    pub closed spec fn decode_ns(&self) -> u64 {
        self.decode_ns
    }

    pub closed spec fn acquire_ns(&self) -> u64 {
        self.acquire_ns
    }

    pub closed spec fn size(&self) -> ImageSize {
        self.size
    }

    pub open spec fn wf(&self) -> bool {
        &&& self.decode_ns() + self.acquire_ns() <= self.clock()
        &&& self.stage() == Stage::Decoding ==> self.clock() == 0
        &&& self.stage() == Stage::Acquiring ==> self.acquire_ns() == 0
    }

    /// A request just received, clock at zero.
    pub fn start() -> (r: Pipeline)
        ensures
            r.wf(),
            r.stage() == Stage::Decoding,
            r.clock() == 0,
    {
        Pipeline {
            stage: Stage::Decoding,
            clock: 0,
            decode_ns: 0,
            acquire_ns: 0,
            size: ImageSize { width: 0, height: 0 },
        }
    }

    pub fn current_stage(&self) -> (r: Stage)
        ensures
            r == self.stage(),
    {
        self.stage
    }

    /// Decoding ended at `end` with an image (`Some`) or with nothing usable.
    /// Nothing usable ends the request with a soft failure, returned here.
    pub fn decoded(&mut self, end: u64, image: Option<ImageSize>) -> (r: Option<DetectionResult>)
        requires
            old(self).wf(),
            old(self).stage() == Stage::Decoding,
        ensures
            final(self).wf(),
            final(self).decode_ns() == end,
            final(self).clock() == end,
            match image {
                Some(size) => {
                    &&& r.is_none()
                    &&& final(self).stage() == Stage::Acquiring
                    &&& final(self).size() == size
                },
                None => {
                    &&& final(self).stage() == Stage::Complete
                    &&& r matches Some(res) && res.wf() && !res.success && res.codes@.len() == 0
                        && res.statistics == (DetectionStatistics {
                        decode_ns: end,
                        detection_ns: 0,
                        total_ns: end,
                        pool_acquisition_ns: 0,
                        image_width: 0,
                        image_height: 0,
                    })
                },
            },
    {
        self.clock = end;
        self.decode_ns = end;
        match image {
            Some(size) => {
                self.size = size;
                self.stage = Stage::Acquiring;
                None
            },
            None => {
                self.stage = Stage::Complete;
                let statistics = DetectionStatistics {
                    decode_ns: end,
                    detection_ns: 0,
                    total_ns: end,
                    pool_acquisition_ns: 0,
                    image_width: 0,
                    image_height: 0,
                };
                Some(DetectionResult { success: false, codes: Vec::new(), statistics })
            },
        }
    }

    /// A detector was borrowed between the readings `begin` and `end`.
    pub fn acquired(&mut self, begin: u64, end: u64)
        requires
            old(self).wf(),
            old(self).stage() == Stage::Acquiring,
        ensures
            final(self).wf(),
            final(self).stage() == Stage::Detecting,
            final(self).decode_ns() == old(self).decode_ns(),
            final(self).size() == old(self).size(),
            final(self).clock() == later_of(end, later_of(begin, old(self).clock())),
            final(self).acquire_ns() == final(self).clock() - later_of(begin, old(self).clock()),
    {
        let b = later(begin, self.clock);
        let e = later(end, b);
        self.acquire_ns = e - b;
        self.clock = e;
        self.stage = Stage::Detecting;
    }

    /// The detector ran between `begin` and `end` and reported `texts` and
    /// `corners`; the request was answered at `finish`.
    pub fn detected(
        &mut self,
        begin: u64,
        end: u64,
        finish: u64,
        texts: &Vec<String>,
        corners: &Vec<CornerData>,
    ) -> (r: DetectionResult)
        requires
            old(self).wf(),
            old(self).stage() == Stage::Detecting,
        ensures
            final(self).stage() == Stage::Complete,
            r.wf(),
            r.success,
            codes_match(
                r.codes@,
                texts@,
                corners@,
                old(self).size().width as nat,
                old(self).size().height as nat,
            ),
            ({
                let b = later_of(begin, old(self).clock());
                let e = later_of(end, b);
                r.statistics == DetectionStatistics {
                    decode_ns: old(self).decode_ns(),
                    detection_ns: (e - b) as u64,
                    total_ns: later_of(finish, e),
                    pool_acquisition_ns: old(self).acquire_ns(),
                    image_width: old(self).size().width,
                    image_height: old(self).size().height,
                }
            }),
    {
        let b = later(begin, self.clock);
        let e = later(end, b);
        let total = later(finish, e);
        let codes = build_codes(texts, corners, self.size.width, self.size.height);
        self.clock = total;
        self.stage = Stage::Complete;
        let statistics = DetectionStatistics {
            decode_ns: self.decode_ns,
            detection_ns: e - b,
            total_ns: total,
            pool_acquisition_ns: self.acquire_ns,
            image_width: self.size.width,
            image_height: self.size.height,
        };
        DetectionResult { success: true, codes, statistics }
    }
}

} // verus!
