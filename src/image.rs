use vstd::prelude::*;

verus! {

/// A frame buffer of `height` rows, each holding `width` pixels.
/// `data[y][x]` is the pixel in column `x` of row `y`.
pub struct Image<T> {
    pub data: Vec<Vec<T>>,
    pub width: usize,
    pub height: usize,
}

impl<T> Image<T> {
    /// The buffer has exactly `height` rows of exactly `width` pixels.
    pub open spec fn wf(&self) -> bool {
        &&& self.data@.len() == self.height
        &&& forall|y: int| 0 <= y < self.height ==> (#[trigger] self.data@[y])@.len() == self.width
    }

    /// The pixel in column `x` of row `y`.
    pub open spec fn pixel(&self, x: int, y: int) -> T {
        self.data@[y]@[x]
    }
}

impl<T: Copy> Image<T> {
    /// A `width` by `height` image whose every pixel is `fill`.
    pub fn new(fill: T, width: usize, height: usize) -> (r: Image<T>)
        ensures
            r.wf(),
            r.width == width,
            r.height == height,
            forall|x: int, y: int| 0 <= x < width && 0 <= y < height ==> r.pixel(x, y) == fill,
    {
        let mut data: Vec<Vec<T>> = Vec::new();
        let mut y: usize = 0;
        while y < height
            invariant
                y <= height,
                data@.len() == y,
                forall|j: int| 0 <= j < y ==> (#[trigger] data@[j])@.len() == width,
                forall|j: int, i: int| 0 <= j < y && 0 <= i < width ==> data@[j]@[i] == fill,
            decreases height - y,
        {
            let mut row: Vec<T> = Vec::new();
            let mut x: usize = 0;
            while x < width
                invariant
                    x <= width,
                    row@.len() == x,
                    forall|i: int| 0 <= i < x ==> row@[i] == fill,
                decreases width - x,
            {
                row.push(fill);
                x = x + 1;
            }
            data.push(row);
            y = y + 1;
        }
        Image { data, width, height }
    }

    /// The pixel in column `x` of row `y`.
    pub fn get(&self, x: usize, y: usize) -> (r: T)
        requires
            self.wf(),
            x < self.width,
            y < self.height,
        ensures
            r == self.pixel(x as int, y as int),
    {
        self.data[y][x]
    }

    /// Writes `value` into column `x` of row `y`, leaving every other pixel as it was.
    pub fn set(&mut self, x: usize, y: usize, value: T)
        requires
            old(self).wf(),
            x < old(self).width,
            y < old(self).height,
        ensures
            final(self).wf(),
            final(self).width == old(self).width,
            final(self).height == old(self).height,
            final(self).pixel(x as int, y as int) == value,
            forall|i: int, j: int|
                0 <= i < old(self).width && 0 <= j < old(self).height && (i != x || j != y)
                    ==> final(self).pixel(i, j) == old(self).pixel(i, j),
    {
        self.data[y][x] = value;
    }

    /// A new image of the same size whose pixel at each place is `f` of the pixel there.
    pub fn map<U, F: Fn(T) -> U>(&self, f: F) -> (r: Image<U>)
        requires
            self.wf(),
            forall|x: int, y: int|
                0 <= x < self.width && 0 <= y < self.height ==> f.requires((self.pixel(x, y),)),
        ensures
            r.wf(),
            r.width == self.width,
            r.height == self.height,
            forall|x: int, y: int|
                0 <= x < self.width && 0 <= y < self.height ==> f.ensures(
                    (self.pixel(x, y),),
                    r.pixel(x, y),
                ),
    {
        let mut data: Vec<Vec<U>> = Vec::new();
        let mut y: usize = 0;
        while y < self.height
            invariant
                self.wf(),
                y <= self.height,
                data@.len() == y,
                forall|x: int, j: int|
                    0 <= x < self.width && 0 <= j < self.height ==> f.requires(
                        (self.pixel(x, j),),
                    ),
                forall|j: int| 0 <= j < y ==> (#[trigger] data@[j])@.len() == self.width,
                forall|i: int, j: int|
                    0 <= i < self.width && 0 <= j < y ==> f.ensures(
                        (self.pixel(i, j),),
                        data@[j]@[i],
                    ),
            decreases self.height - y,
        {
            let mut row: Vec<U> = Vec::new();
            let mut x: usize = 0;
            while x < self.width
                invariant
                    self.wf(),
                    y < self.height,
                    x <= self.width,
                    row@.len() == x,
                    forall|i: int, j: int|
                        0 <= i < self.width && 0 <= j < self.height ==> f.requires(
                            (self.pixel(i, j),),
                        ),
                    forall|i: int| 0 <= i < x ==> f.ensures((self.pixel(i, y as int),), row@[i]),
                decreases self.width - x,
            {
                let p = self.get(x, y);
                row.push(f(p));
                x = x + 1;
            }
            data.push(row);
            y = y + 1;
        }
        Image { data, width: self.width, height: self.height }
    }

    /// Replaces each pixel by `f(pixel, x, y)`, row by row.
    pub fn each_pixel_mut<F: Fn(T, usize, usize) -> T>(&mut self, f: F)
        requires
            old(self).wf(),
            forall|x: usize, y: usize|
                x < old(self).width && y < old(self).height ==> f.requires(
                    (old(self).pixel(x as int, y as int), x, y),
                ),
        ensures
            final(self).wf(),
            final(self).width == old(self).width,
            final(self).height == old(self).height,
            forall|x: usize, y: usize|
                x < old(self).width && y < old(self).height ==> f.ensures(
                    (old(self).pixel(x as int, y as int), x, y),
                    final(self).pixel(x as int, y as int),
                ),
    {
        let ghost before = *self;
        let mut y: usize = 0;
        while y < self.height
            invariant
                self.wf(),
                self.width == before.width,
                self.height == before.height,
                y <= self.height,
                forall|i: usize, j: usize|
                    i < before.width && j < before.height ==> f.requires(
                        (before.pixel(i as int, j as int), i, j),
                    ),
                forall|i: usize, j: usize|
                    i < before.width && j < y ==> f.ensures(
                        (before.pixel(i as int, j as int), i, j),
                        self.pixel(i as int, j as int),
                    ),
                forall|i: int, j: int|
                    0 <= i < before.width && y <= j < before.height ==> self.pixel(i, j)
                        == before.pixel(i, j),
            decreases self.height - y,
        {
            let mut x: usize = 0;
            while x < self.width
                invariant
                    self.wf(),
                    self.width == before.width,
                    self.height == before.height,
                    y < self.height,
                    x <= self.width,
                    forall|i: usize, j: usize|
                        i < before.width && j < before.height ==> f.requires(
                            (before.pixel(i as int, j as int), i, j),
                        ),
                    forall|i: usize, j: usize|
                        i < before.width && (j < y || (j == y && i < x)) ==> f.ensures(
                            (before.pixel(i as int, j as int), i, j),
                            self.pixel(i as int, j as int),
                        ),
                    forall|i: int, j: int|
                        0 <= i < before.width && ((y < j < before.height) || (j == y && x <= i
                            < before.width)) ==> self.pixel(i, j) == before.pixel(i, j),
                decreases self.width - x,
            {
                let p = self.get(x, y);
                let q = f(p, x, y);
                self.set(x, y, q);
                x = x + 1;
            }
            y = y + 1;
        }
    }
}

} // verus!
