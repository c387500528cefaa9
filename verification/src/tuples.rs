//! Tuples of steps. A tuple stands for the steps of its first field, then
//! those of the second, and so on; a field may itself be a tuple, so nested
//! sequences flatten in the order in which they are written. There is one
//! impl for each length up to twenty.

use vstd::prelude::*;

use crate::compose::IntoCoroutines;
use crate::host::BoxedCoroutine;

verus! {

impl<S0: IntoCoroutines> IntoCoroutines for (S0,) {
    open spec fn steps(self) -> Seq<BoxedCoroutine> {
        self.0.steps()
    }

    fn collect_coroutines(self, coroutines: &mut Vec<BoxedCoroutine>) {
        let (s0,) = self;
        s0.collect_coroutines(coroutines);
    }
}

impl<S0: IntoCoroutines, S1: IntoCoroutines> IntoCoroutines for (S0, S1) {
    open spec fn steps(self) -> Seq<BoxedCoroutine> {
        self.0.steps() + self.1.steps()
    }

    fn collect_coroutines(self, coroutines: &mut Vec<BoxedCoroutine>) {
        let (s0, s1) = self;
        s0.collect_coroutines(coroutines);
        s1.collect_coroutines(coroutines);
    }
}

impl<S0: IntoCoroutines, S1: IntoCoroutines, S2: IntoCoroutines> IntoCoroutines for (S0, S1, S2) {
    open spec fn steps(self) -> Seq<BoxedCoroutine> {
        self.0.steps() + self.1.steps() + self.2.steps()
    }

    fn collect_coroutines(self, coroutines: &mut Vec<BoxedCoroutine>) {
        let (s0, s1, s2) = self;
        s0.collect_coroutines(coroutines);
        s1.collect_coroutines(coroutines);
        s2.collect_coroutines(coroutines);
    }
}

impl<S0: IntoCoroutines, S1: IntoCoroutines, S2: IntoCoroutines, S3: IntoCoroutines> IntoCoroutines for (S0, S1, S2, S3) {
    open spec fn steps(self) -> Seq<BoxedCoroutine> {
        self.0.steps()
            + self.1.steps()
            + self.2.steps()
            + self.3.steps()
    }

    fn collect_coroutines(self, coroutines: &mut Vec<BoxedCoroutine>) {
        let (s0, s1, s2, s3) = self;
        s0.collect_coroutines(coroutines);
        s1.collect_coroutines(coroutines);
        s2.collect_coroutines(coroutines);
        s3.collect_coroutines(coroutines);
    }
}

impl<S0: IntoCoroutines, S1: IntoCoroutines, S2: IntoCoroutines, S3: IntoCoroutines, S4: IntoCoroutines> IntoCoroutines for (S0, S1, S2, S3, S4) {
    open spec fn steps(self) -> Seq<BoxedCoroutine> {
        self.0.steps()
            + self.1.steps()
            + self.2.steps()
            + self.3.steps()
            + self.4.steps()
    }

    fn collect_coroutines(self, coroutines: &mut Vec<BoxedCoroutine>) {
        let (s0, s1, s2, s3, s4) = self;
        s0.collect_coroutines(coroutines);
        s1.collect_coroutines(coroutines);
        s2.collect_coroutines(coroutines);
        s3.collect_coroutines(coroutines);
        s4.collect_coroutines(coroutines);
    }
}

impl<S0: IntoCoroutines, S1: IntoCoroutines, S2: IntoCoroutines, S3: IntoCoroutines, S4: IntoCoroutines, S5: IntoCoroutines> IntoCoroutines for (S0, S1, S2, S3, S4, S5) {
    open spec fn steps(self) -> Seq<BoxedCoroutine> {
        self.0.steps()
            + self.1.steps()
            + self.2.steps()
            + self.3.steps()
            + self.4.steps()
            + self.5.steps()
    }

    fn collect_coroutines(self, coroutines: &mut Vec<BoxedCoroutine>) {
        let (s0, s1, s2, s3, s4, s5) = self;
        s0.collect_coroutines(coroutines);
        s1.collect_coroutines(coroutines);
        s2.collect_coroutines(coroutines);
        s3.collect_coroutines(coroutines);
        s4.collect_coroutines(coroutines);
        s5.collect_coroutines(coroutines);
    }
}

impl<S0: IntoCoroutines, S1: IntoCoroutines, S2: IntoCoroutines, S3: IntoCoroutines, S4: IntoCoroutines, S5: IntoCoroutines, S6: IntoCoroutines> IntoCoroutines for (S0, S1, S2, S3, S4, S5, S6) {
    open spec fn steps(self) -> Seq<BoxedCoroutine> {
        self.0.steps()
            + self.1.steps()
            + self.2.steps()
            + self.3.steps()
            + self.4.steps()
            + self.5.steps()
            + self.6.steps()
    }

    fn collect_coroutines(self, coroutines: &mut Vec<BoxedCoroutine>) {
        let (s0, s1, s2, s3, s4, s5, s6) = self;
        s0.collect_coroutines(coroutines);
        s1.collect_coroutines(coroutines);
        s2.collect_coroutines(coroutines);
        s3.collect_coroutines(coroutines);
        s4.collect_coroutines(coroutines);
        s5.collect_coroutines(coroutines);
        s6.collect_coroutines(coroutines);
    }
}

impl<S0: IntoCoroutines, S1: IntoCoroutines, S2: IntoCoroutines, S3: IntoCoroutines, S4: IntoCoroutines, S5: IntoCoroutines, S6: IntoCoroutines, S7: IntoCoroutines> IntoCoroutines for (S0, S1, S2, S3, S4, S5, S6, S7) {
    open spec fn steps(self) -> Seq<BoxedCoroutine> {
        self.0.steps()
            + self.1.steps()
            + self.2.steps()
            + self.3.steps()
            + self.4.steps()
            + self.5.steps()
            + self.6.steps()
            + self.7.steps()
    }

    fn collect_coroutines(self, coroutines: &mut Vec<BoxedCoroutine>) {
        let (s0, s1, s2, s3, s4, s5, s6, s7) = self;
        s0.collect_coroutines(coroutines);
        s1.collect_coroutines(coroutines);
        s2.collect_coroutines(coroutines);
        s3.collect_coroutines(coroutines);
        s4.collect_coroutines(coroutines);
        s5.collect_coroutines(coroutines);
        s6.collect_coroutines(coroutines);
        s7.collect_coroutines(coroutines);
    }
}

impl<S0: IntoCoroutines, S1: IntoCoroutines, S2: IntoCoroutines, S3: IntoCoroutines, S4: IntoCoroutines, S5: IntoCoroutines, S6: IntoCoroutines, S7: IntoCoroutines, S8: IntoCoroutines> IntoCoroutines for (S0, S1, S2, S3, S4, S5, S6, S7, S8) {
    open spec fn steps(self) -> Seq<BoxedCoroutine> {
        self.0.steps()
            + self.1.steps()
            + self.2.steps()
            + self.3.steps()
            + self.4.steps()
            + self.5.steps()
            + self.6.steps()
            + self.7.steps()
            + self.8.steps()
    }

    fn collect_coroutines(self, coroutines: &mut Vec<BoxedCoroutine>) {
        let (s0, s1, s2, s3, s4, s5, s6, s7, s8) = self;
        s0.collect_coroutines(coroutines);
        s1.collect_coroutines(coroutines);
        s2.collect_coroutines(coroutines);
        s3.collect_coroutines(coroutines);
        s4.collect_coroutines(coroutines);
        s5.collect_coroutines(coroutines);
        s6.collect_coroutines(coroutines);
        s7.collect_coroutines(coroutines);
        s8.collect_coroutines(coroutines);
    }
}

impl<S0: IntoCoroutines, S1: IntoCoroutines, S2: IntoCoroutines, S3: IntoCoroutines, S4: IntoCoroutines, S5: IntoCoroutines, S6: IntoCoroutines, S7: IntoCoroutines, S8: IntoCoroutines, S9: IntoCoroutines> IntoCoroutines for (S0, S1, S2, S3, S4, S5, S6, S7, S8, S9) {
    open spec fn steps(self) -> Seq<BoxedCoroutine> {
        self.0.steps()
            + self.1.steps()
            + self.2.steps()
            + self.3.steps()
            + self.4.steps()
            + self.5.steps()
            + self.6.steps()
            + self.7.steps()
            + self.8.steps()
            + self.9.steps()
    }

    fn collect_coroutines(self, coroutines: &mut Vec<BoxedCoroutine>) {
        let (s0, s1, s2, s3, s4, s5, s6, s7, s8, s9) = self;
        s0.collect_coroutines(coroutines);
        s1.collect_coroutines(coroutines);
        s2.collect_coroutines(coroutines);
        s3.collect_coroutines(coroutines);
        s4.collect_coroutines(coroutines);
        s5.collect_coroutines(coroutines);
        s6.collect_coroutines(coroutines);
        s7.collect_coroutines(coroutines);
        s8.collect_coroutines(coroutines);
        s9.collect_coroutines(coroutines);
    }
}

impl<S0: IntoCoroutines, S1: IntoCoroutines, S2: IntoCoroutines, S3: IntoCoroutines, S4: IntoCoroutines, S5: IntoCoroutines, S6: IntoCoroutines, S7: IntoCoroutines, S8: IntoCoroutines, S9: IntoCoroutines, S10: IntoCoroutines> IntoCoroutines for (S0, S1, S2, S3, S4, S5, S6, S7, S8, S9, S10) {
    open spec fn steps(self) -> Seq<BoxedCoroutine> {
        self.0.steps()
            + self.1.steps()
            + self.2.steps()
            + self.3.steps()
            + self.4.steps()
            + self.5.steps()
            + self.6.steps()
            + self.7.steps()
            + self.8.steps()
            + self.9.steps()
            + self.10.steps()
    }

    fn collect_coroutines(self, coroutines: &mut Vec<BoxedCoroutine>) {
        let (s0, s1, s2, s3, s4, s5, s6, s7, s8, s9, s10) = self;
        s0.collect_coroutines(coroutines);
        s1.collect_coroutines(coroutines);
        s2.collect_coroutines(coroutines);
        s3.collect_coroutines(coroutines);
        s4.collect_coroutines(coroutines);
        s5.collect_coroutines(coroutines);
        s6.collect_coroutines(coroutines);
        s7.collect_coroutines(coroutines);
        s8.collect_coroutines(coroutines);
        s9.collect_coroutines(coroutines);
        s10.collect_coroutines(coroutines);
    }
}

impl<S0: IntoCoroutines, S1: IntoCoroutines, S2: IntoCoroutines, S3: IntoCoroutines, S4: IntoCoroutines, S5: IntoCoroutines, S6: IntoCoroutines, S7: IntoCoroutines, S8: IntoCoroutines, S9: IntoCoroutines, S10: IntoCoroutines, S11: IntoCoroutines> IntoCoroutines for (S0, S1, S2, S3, S4, S5, S6, S7, S8, S9, S10, S11) {
    open spec fn steps(self) -> Seq<BoxedCoroutine> {
        self.0.steps()
            + self.1.steps()
            + self.2.steps()
            + self.3.steps()
            + self.4.steps()
            + self.5.steps()
            + self.6.steps()
            + self.7.steps()
            + self.8.steps()
            + self.9.steps()
            + self.10.steps()
            + self.11.steps()
    }

    fn collect_coroutines(self, coroutines: &mut Vec<BoxedCoroutine>) {
        let (s0, s1, s2, s3, s4, s5, s6, s7, s8, s9, s10, s11) = self;
        s0.collect_coroutines(coroutines);
        s1.collect_coroutines(coroutines);
        s2.collect_coroutines(coroutines);
        s3.collect_coroutines(coroutines);
        s4.collect_coroutines(coroutines);
        s5.collect_coroutines(coroutines);
        s6.collect_coroutines(coroutines);
        s7.collect_coroutines(coroutines);
        s8.collect_coroutines(coroutines);
        s9.collect_coroutines(coroutines);
        s10.collect_coroutines(coroutines);
        s11.collect_coroutines(coroutines);
    }
}

impl<S0: IntoCoroutines, S1: IntoCoroutines, S2: IntoCoroutines, S3: IntoCoroutines, S4: IntoCoroutines, S5: IntoCoroutines, S6: IntoCoroutines, S7: IntoCoroutines, S8: IntoCoroutines, S9: IntoCoroutines, S10: IntoCoroutines, S11: IntoCoroutines, S12: IntoCoroutines> IntoCoroutines for (S0, S1, S2, S3, S4, S5, S6, S7, S8, S9, S10, S11, S12) {
    open spec fn steps(self) -> Seq<BoxedCoroutine> {
        self.0.steps()
            + self.1.steps()
            + self.2.steps()
            + self.3.steps()
            + self.4.steps()
            + self.5.steps()
            + self.6.steps()
            + self.7.steps()
            + self.8.steps()
            + self.9.steps()
            + self.10.steps()
            + self.11.steps()
            + self.12.steps()
    }

    fn collect_coroutines(self, coroutines: &mut Vec<BoxedCoroutine>) {
        let (s0, s1, s2, s3, s4, s5, s6, s7, s8, s9, s10, s11, s12) = self;
        s0.collect_coroutines(coroutines);
        s1.collect_coroutines(coroutines);
        s2.collect_coroutines(coroutines);
        s3.collect_coroutines(coroutines);
        s4.collect_coroutines(coroutines);
        s5.collect_coroutines(coroutines);
        s6.collect_coroutines(coroutines);
        s7.collect_coroutines(coroutines);
        s8.collect_coroutines(coroutines);
        s9.collect_coroutines(coroutines);
        s10.collect_coroutines(coroutines);
        s11.collect_coroutines(coroutines);
        s12.collect_coroutines(coroutines);
    }
}

impl<S0: IntoCoroutines, S1: IntoCoroutines, S2: IntoCoroutines, S3: IntoCoroutines, S4: IntoCoroutines, S5: IntoCoroutines, S6: IntoCoroutines, S7: IntoCoroutines, S8: IntoCoroutines, S9: IntoCoroutines, S10: IntoCoroutines, S11: IntoCoroutines, S12: IntoCoroutines, S13: IntoCoroutines> IntoCoroutines for (S0, S1, S2, S3, S4, S5, S6, S7, S8, S9, S10, S11, S12, S13) {
    open spec fn steps(self) -> Seq<BoxedCoroutine> {
        self.0.steps()
            + self.1.steps()
            + self.2.steps()
            + self.3.steps()
            + self.4.steps()
            + self.5.steps()
            + self.6.steps()
            + self.7.steps()
            + self.8.steps()
            + self.9.steps()
            + self.10.steps()
            + self.11.steps()
            + self.12.steps()
            + self.13.steps()
    }

    fn collect_coroutines(self, coroutines: &mut Vec<BoxedCoroutine>) {
        let (s0, s1, s2, s3, s4, s5, s6, s7, s8, s9, s10, s11, s12, s13) = self;
        s0.collect_coroutines(coroutines);
        s1.collect_coroutines(coroutines);
        s2.collect_coroutines(coroutines);
        s3.collect_coroutines(coroutines);
        s4.collect_coroutines(coroutines);
        s5.collect_coroutines(coroutines);
        s6.collect_coroutines(coroutines);
        s7.collect_coroutines(coroutines);
        s8.collect_coroutines(coroutines);
        s9.collect_coroutines(coroutines);
        s10.collect_coroutines(coroutines);
        s11.collect_coroutines(coroutines);
        s12.collect_coroutines(coroutines);
        s13.collect_coroutines(coroutines);
    }
}

impl<S0: IntoCoroutines, S1: IntoCoroutines, S2: IntoCoroutines, S3: IntoCoroutines, S4: IntoCoroutines, S5: IntoCoroutines, S6: IntoCoroutines, S7: IntoCoroutines, S8: IntoCoroutines, S9: IntoCoroutines, S10: IntoCoroutines, S11: IntoCoroutines, S12: IntoCoroutines, S13: IntoCoroutines, S14: IntoCoroutines> IntoCoroutines for (S0, S1, S2, S3, S4, S5, S6, S7, S8, S9, S10, S11, S12, S13, S14) {
    open spec fn steps(self) -> Seq<BoxedCoroutine> {
        self.0.steps()
            + self.1.steps()
            + self.2.steps()
            + self.3.steps()
            + self.4.steps()
            + self.5.steps()
            + self.6.steps()
            + self.7.steps()
            + self.8.steps()
            + self.9.steps()
            + self.10.steps()
            + self.11.steps()
            + self.12.steps()
            + self.13.steps()
            + self.14.steps()
    }

    fn collect_coroutines(self, coroutines: &mut Vec<BoxedCoroutine>) {
        let (s0, s1, s2, s3, s4, s5, s6, s7, s8, s9, s10, s11, s12, s13, s14) = self;
        s0.collect_coroutines(coroutines);
        s1.collect_coroutines(coroutines);
        s2.collect_coroutines(coroutines);
        s3.collect_coroutines(coroutines);
        s4.collect_coroutines(coroutines);
        s5.collect_coroutines(coroutines);
        s6.collect_coroutines(coroutines);
        s7.collect_coroutines(coroutines);
        s8.collect_coroutines(coroutines);
        s9.collect_coroutines(coroutines);
        s10.collect_coroutines(coroutines);
        s11.collect_coroutines(coroutines);
        s12.collect_coroutines(coroutines);
        s13.collect_coroutines(coroutines);
        s14.collect_coroutines(coroutines);
    }
}

impl<S0: IntoCoroutines, S1: IntoCoroutines, S2: IntoCoroutines, S3: IntoCoroutines, S4: IntoCoroutines, S5: IntoCoroutines, S6: IntoCoroutines, S7: IntoCoroutines, S8: IntoCoroutines, S9: IntoCoroutines, S10: IntoCoroutines, S11: IntoCoroutines, S12: IntoCoroutines, S13: IntoCoroutines, S14: IntoCoroutines, S15: IntoCoroutines> IntoCoroutines for (S0, S1, S2, S3, S4, S5, S6, S7, S8, S9, S10, S11, S12, S13, S14, S15) {
    open spec fn steps(self) -> Seq<BoxedCoroutine> {
        self.0.steps()
            + self.1.steps()
            + self.2.steps()
            + self.3.steps()
            + self.4.steps()
            + self.5.steps()
            + self.6.steps()
            + self.7.steps()
            + self.8.steps()
            + self.9.steps()
            + self.10.steps()
            + self.11.steps()
            + self.12.steps()
            + self.13.steps()
            + self.14.steps()
            + self.15.steps()
    }

    fn collect_coroutines(self, coroutines: &mut Vec<BoxedCoroutine>) {
        let (s0, s1, s2, s3, s4, s5, s6, s7, s8, s9, s10, s11, s12, s13, s14, s15) = self;
        s0.collect_coroutines(coroutines);
        s1.collect_coroutines(coroutines);
        s2.collect_coroutines(coroutines);
        s3.collect_coroutines(coroutines);
        s4.collect_coroutines(coroutines);
        s5.collect_coroutines(coroutines);
        s6.collect_coroutines(coroutines);
        s7.collect_coroutines(coroutines);
        s8.collect_coroutines(coroutines);
        s9.collect_coroutines(coroutines);
        s10.collect_coroutines(coroutines);
        s11.collect_coroutines(coroutines);
        s12.collect_coroutines(coroutines);
        s13.collect_coroutines(coroutines);
        s14.collect_coroutines(coroutines);
        s15.collect_coroutines(coroutines);
    }
}

impl<S0: IntoCoroutines, S1: IntoCoroutines, S2: IntoCoroutines, S3: IntoCoroutines, S4: IntoCoroutines, S5: IntoCoroutines, S6: IntoCoroutines, S7: IntoCoroutines, S8: IntoCoroutines, S9: IntoCoroutines, S10: IntoCoroutines, S11: IntoCoroutines, S12: IntoCoroutines, S13: IntoCoroutines, S14: IntoCoroutines, S15: IntoCoroutines, S16: IntoCoroutines> IntoCoroutines for (S0, S1, S2, S3, S4, S5, S6, S7, S8, S9, S10, S11, S12, S13, S14, S15, S16) {
    open spec fn steps(self) -> Seq<BoxedCoroutine> {
        self.0.steps()
            + self.1.steps()
            + self.2.steps()
            + self.3.steps()
            + self.4.steps()
            + self.5.steps()
            + self.6.steps()
            + self.7.steps()
            + self.8.steps()
            + self.9.steps()
            + self.10.steps()
            + self.11.steps()
            + self.12.steps()
            + self.13.steps()
            + self.14.steps()
            + self.15.steps()
            + self.16.steps()
    }

    fn collect_coroutines(self, coroutines: &mut Vec<BoxedCoroutine>) {
        let (s0, s1, s2, s3, s4, s5, s6, s7, s8, s9, s10, s11, s12, s13, s14, s15, s16) = self;
        s0.collect_coroutines(coroutines);
        s1.collect_coroutines(coroutines);
        s2.collect_coroutines(coroutines);
        s3.collect_coroutines(coroutines);
        s4.collect_coroutines(coroutines);
        s5.collect_coroutines(coroutines);
        s6.collect_coroutines(coroutines);
        s7.collect_coroutines(coroutines);
        s8.collect_coroutines(coroutines);
        s9.collect_coroutines(coroutines);
        s10.collect_coroutines(coroutines);
        s11.collect_coroutines(coroutines);
        s12.collect_coroutines(coroutines);
        s13.collect_coroutines(coroutines);
        s14.collect_coroutines(coroutines);
        s15.collect_coroutines(coroutines);
        s16.collect_coroutines(coroutines);
    }
}

impl<S0: IntoCoroutines, S1: IntoCoroutines, S2: IntoCoroutines, S3: IntoCoroutines, S4: IntoCoroutines, S5: IntoCoroutines, S6: IntoCoroutines, S7: IntoCoroutines, S8: IntoCoroutines, S9: IntoCoroutines, S10: IntoCoroutines, S11: IntoCoroutines, S12: IntoCoroutines, S13: IntoCoroutines, S14: IntoCoroutines, S15: IntoCoroutines, S16: IntoCoroutines, S17: IntoCoroutines> IntoCoroutines for (S0, S1, S2, S3, S4, S5, S6, S7, S8, S9, S10, S11, S12, S13, S14, S15, S16, S17) {
    open spec fn steps(self) -> Seq<BoxedCoroutine> {
        self.0.steps()
            + self.1.steps()
            + self.2.steps()
            + self.3.steps()
            + self.4.steps()
            + self.5.steps()
            + self.6.steps()
            + self.7.steps()
            + self.8.steps()
            + self.9.steps()
            + self.10.steps()
            + self.11.steps()
            + self.12.steps()
            + self.13.steps()
            + self.14.steps()
            + self.15.steps()
            + self.16.steps()
            + self.17.steps()
    }

    fn collect_coroutines(self, coroutines: &mut Vec<BoxedCoroutine>) {
        let (s0, s1, s2, s3, s4, s5, s6, s7, s8, s9, s10, s11, s12, s13, s14, s15, s16, s17) = self;
        s0.collect_coroutines(coroutines);
        s1.collect_coroutines(coroutines);
        s2.collect_coroutines(coroutines);
        s3.collect_coroutines(coroutines);
        s4.collect_coroutines(coroutines);
        s5.collect_coroutines(coroutines);
        s6.collect_coroutines(coroutines);
        s7.collect_coroutines(coroutines);
        s8.collect_coroutines(coroutines);
        s9.collect_coroutines(coroutines);
        s10.collect_coroutines(coroutines);
        s11.collect_coroutines(coroutines);
        s12.collect_coroutines(coroutines);
        s13.collect_coroutines(coroutines);
        s14.collect_coroutines(coroutines);
        s15.collect_coroutines(coroutines);
        s16.collect_coroutines(coroutines);
        s17.collect_coroutines(coroutines);
    }
}

impl<S0: IntoCoroutines, S1: IntoCoroutines, S2: IntoCoroutines, S3: IntoCoroutines, S4: IntoCoroutines, S5: IntoCoroutines, S6: IntoCoroutines, S7: IntoCoroutines, S8: IntoCoroutines, S9: IntoCoroutines, S10: IntoCoroutines, S11: IntoCoroutines, S12: IntoCoroutines, S13: IntoCoroutines, S14: IntoCoroutines, S15: IntoCoroutines, S16: IntoCoroutines, S17: IntoCoroutines, S18: IntoCoroutines> IntoCoroutines for (S0, S1, S2, S3, S4, S5, S6, S7, S8, S9, S10, S11, S12, S13, S14, S15, S16, S17, S18) {
    open spec fn steps(self) -> Seq<BoxedCoroutine> {
        self.0.steps()
            + self.1.steps()
            + self.2.steps()
            + self.3.steps()
            + self.4.steps()
            + self.5.steps()
            + self.6.steps()
            + self.7.steps()
            + self.8.steps()
            + self.9.steps()
            + self.10.steps()
            + self.11.steps()
            + self.12.steps()
            + self.13.steps()
            + self.14.steps()
            + self.15.steps()
            + self.16.steps()
            + self.17.steps()
            + self.18.steps()
    }

    fn collect_coroutines(self, coroutines: &mut Vec<BoxedCoroutine>) {
        let (s0, s1, s2, s3, s4, s5, s6, s7, s8, s9, s10, s11, s12, s13, s14, s15, s16, s17, s18) = self;
        s0.collect_coroutines(coroutines);
        s1.collect_coroutines(coroutines);
        s2.collect_coroutines(coroutines);
        s3.collect_coroutines(coroutines);
        s4.collect_coroutines(coroutines);
        s5.collect_coroutines(coroutines);
        s6.collect_coroutines(coroutines);
        s7.collect_coroutines(coroutines);
        s8.collect_coroutines(coroutines);
        s9.collect_coroutines(coroutines);
        s10.collect_coroutines(coroutines);
        s11.collect_coroutines(coroutines);
        s12.collect_coroutines(coroutines);
        s13.collect_coroutines(coroutines);
        s14.collect_coroutines(coroutines);
        s15.collect_coroutines(coroutines);
        s16.collect_coroutines(coroutines);
        s17.collect_coroutines(coroutines);
        s18.collect_coroutines(coroutines);
    }
}

impl<S0: IntoCoroutines, S1: IntoCoroutines, S2: IntoCoroutines, S3: IntoCoroutines, S4: IntoCoroutines, S5: IntoCoroutines, S6: IntoCoroutines, S7: IntoCoroutines, S8: IntoCoroutines, S9: IntoCoroutines, S10: IntoCoroutines, S11: IntoCoroutines, S12: IntoCoroutines, S13: IntoCoroutines, S14: IntoCoroutines, S15: IntoCoroutines, S16: IntoCoroutines, S17: IntoCoroutines, S18: IntoCoroutines, S19: IntoCoroutines> IntoCoroutines for (S0, S1, S2, S3, S4, S5, S6, S7, S8, S9, S10, S11, S12, S13, S14, S15, S16, S17, S18, S19) {
    open spec fn steps(self) -> Seq<BoxedCoroutine> {
        self.0.steps()
            + self.1.steps()
            + self.2.steps()
            + self.3.steps()
            + self.4.steps()
            + self.5.steps()
            + self.6.steps()
            + self.7.steps()
            + self.8.steps()
            + self.9.steps()
            + self.10.steps()
            + self.11.steps()
            + self.12.steps()
            + self.13.steps()
            + self.14.steps()
            + self.15.steps()
            + self.16.steps()
            + self.17.steps()
            + self.18.steps()
            + self.19.steps()
    }

    fn collect_coroutines(self, coroutines: &mut Vec<BoxedCoroutine>) {
        let (s0, s1, s2, s3, s4, s5, s6, s7, s8, s9, s10, s11, s12, s13, s14, s15, s16, s17, s18, s19) = self;
        s0.collect_coroutines(coroutines);
        s1.collect_coroutines(coroutines);
        s2.collect_coroutines(coroutines);
        s3.collect_coroutines(coroutines);
        s4.collect_coroutines(coroutines);
        s5.collect_coroutines(coroutines);
        s6.collect_coroutines(coroutines);
        s7.collect_coroutines(coroutines);
        s8.collect_coroutines(coroutines);
        s9.collect_coroutines(coroutines);
        s10.collect_coroutines(coroutines);
        s11.collect_coroutines(coroutines);
        s12.collect_coroutines(coroutines);
        s13.collect_coroutines(coroutines);
        s14.collect_coroutines(coroutines);
        s15.collect_coroutines(coroutines);
        s16.collect_coroutines(coroutines);
        s17.collect_coroutines(coroutines);
        s18.collect_coroutines(coroutines);
        s19.collect_coroutines(coroutines);
    }
}

} // verus!
