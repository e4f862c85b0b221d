//! The trainable weight and how one epoch moves it.
use vstd::prelude::*;
use crate::batching::batch_width;
use crate::batching::chunk;
use crate::batching::lemma_batches_partition_rows;
use crate::batching::epoch_batches;
use crate::batching::is_chunking;
use crate::error::TrainError;
use crate::kinds::MiniBatchSize;
use crate::kinds::UpdatationMethod;
use crate::matrix::Matrix;

verus! {

/// The weight matrix of a linear model: one row per prepared input column
/// (bias first), one column per target.
pub struct Weight<T> {
    weight_matrix: Matrix<T>,
}

/// `after` is `before` moved against `gradient` by `step`, entry by entry,
/// where `step(w, g)` is the new value of an entry `w` whose gradient is `g`.
pub open spec fn stepped<T: Copy, S: Fn(T, T) -> T>(
    before: Matrix<T>,
    gradient: Matrix<T>,
    step: S,
    after: Matrix<T>,
) -> bool {
    &&& after.wf()
    &&& after.shape_of() == before.shape_of()
    &&& forall|i: int, j: int|
        0 <= i < before@.len() && 0 <= j < before.width() ==> step.ensures(
            (before.at(i, j), gradient.at(i, j)),
            #[trigger] after.at(i, j),
        )
}

/// The batch of rows `c` of `x`.
pub open spec fn batch_of<T: Copy>(x: Matrix<T>, c: (usize, usize)) -> Seq<Seq<T>> {
    x@.subrange(c.0 as int, c.1 as int)
}

impl<T: Copy> Weight<T> {
    /// The matrix the weight holds.
    pub closed spec fn matrix(&self) -> Matrix<T> {
        self.weight_matrix
    }

    /// Well-formed: the matrix's rows all have its width.
    pub open spec fn wf(&self) -> bool {
        self.matrix().wf()
    }

    /// A weight that starts at `m`.
    pub fn from_matrix(m: Matrix<T>) -> (r: Weight<T>)
        ensures
            r.matrix() == m,
    {
        Weight { weight_matrix: m }
    }

    /// The current weight matrix.
    pub fn as_matrix(&self) -> (r: &Matrix<T>)
        ensures
            *r == self.matrix(),
    {
        &self.weight_matrix
    }

    /// The weight matrix, to be changed in place.
    pub fn get_mut(&mut self) -> (r: &mut Matrix<T>)
        ensures
            *r == old(self).matrix(),
            final(self).matrix() == *final(r),
    {
        &mut self.weight_matrix
    }

    /// A copy of the current weight matrix.
    pub fn get(&self) -> (r: Matrix<T>)
        requires
            self.wf(),
        ensures
            r.wf(),
            r@ == self.matrix()@,
            r.width() == self.matrix().width(),
    {
        self.weight_matrix.copy()
    }

    /// Moves every entry against the gradient by `step`; a gradient of
    /// another shape than the weight is refused with `ShapeMismatch` and the
    /// weight is left as it was.
    pub fn update<S: Fn(T, T) -> T>(&mut self, gradient: &Matrix<T>, step: S) -> (r: Result<
        (),
        TrainError,
    >)
        requires
            old(self).wf(),
            gradient.wf(),
            forall|a: T, b: T| #[trigger] step.requires((a, b)),
        ensures
            r is Ok <==> gradient.shape_of() == old(self).matrix().shape_of(),
            r is Ok ==> stepped(old(self).matrix(), *gradient, step, final(self).matrix()),
            r is Err ==> r == Err::<(), TrainError>(TrainError::ShapeMismatch) && *final(self)
                == *old(self),
    {
        if gradient.shape() != self.weight_matrix.shape() {
            return Err(TrainError::ShapeMismatch);
        }
        let next = self.weight_matrix.zip_with(gradient, step);
        self.weight_matrix = next;
        Ok(())
    }
}

/// Step `k` of an epoch over `batches`: the gradient `grads[k]` was computed
/// from batch `k` of the input (`xs[k]`) and of the targets (`ys[k]`) and from
/// the weight `trace[k]` left by the step before, and `trace[k + 1]` is that
/// weight moved against it.
pub open spec fn step_at<T: Copy, C, G: Fn(&C, &Matrix<T>, &Matrix<T>, &Matrix<T>) -> Matrix<T>, S: Fn(
    T,
    T,
) -> T>(
    input: Matrix<T>,
    output: Matrix<T>,
    batches: Seq<(usize, usize)>,
    ctx: &C,
    grad: G,
    step: S,
    trace: Seq<Matrix<T>>,
    grads: Seq<Matrix<T>>,
    xs: Seq<Matrix<T>>,
    ys: Seq<Matrix<T>>,
    k: int,
) -> bool {
    &&& xs[k]@ == batch_of(input, batches[k])
    &&& xs[k].width() == input.width()
    &&& ys[k]@ == batch_of(output, batches[k])
    &&& ys[k].width() == output.width()
    &&& grad.ensures((ctx, &xs[k], &ys[k], &trace[k]), grads[k])
    &&& stepped(trace[k], grads[k], step, trace[k + 1])
}

/// The first `n` steps of an epoch over `batches`, starting from `start`.
pub open spec fn steps_along<T: Copy, C, G: Fn(&C, &Matrix<T>, &Matrix<T>, &Matrix<T>) -> Matrix<T>, S: Fn(T, T) -> T>(
    input: Matrix<T>,
    output: Matrix<T>,
    batches: Seq<(usize, usize)>,
    ctx: &C,
    grad: G,
    step: S,
    start: Matrix<T>,
    trace: Seq<Matrix<T>>,
    grads: Seq<Matrix<T>>,
    xs: Seq<Matrix<T>>,
    ys: Seq<Matrix<T>>,
    n: int,
) -> bool {
    &&& trace.len() == n + 1
    &&& grads.len() == n
    &&& xs.len() == n
    &&& ys.len() == n
    &&& trace[0] == start
    &&& forall|k: int|
        0 <= k < n ==> #[trigger] step_at(input, output, batches, ctx, grad, step, trace, grads, xs, ys, k)
}

/// Walking `batches` in order takes the weight from `before` to `after`, each
/// step reading the weight that the step before it left.
pub open spec fn epoch_run<T: Copy, C, G: Fn(&C, &Matrix<T>, &Matrix<T>, &Matrix<T>) -> Matrix<T>, S: Fn(
    T,
    T,
) -> T>(
    input: Matrix<T>,
    output: Matrix<T>,
    batches: Seq<(usize, usize)>,
    ctx: &C,
    grad: G,
    step: S,
    before: Matrix<T>,
    after: Matrix<T>,
) -> bool {
    exists|trace: Seq<Matrix<T>>, grads: Seq<Matrix<T>>, xs: Seq<Matrix<T>>, ys: Seq<Matrix<T>>|
        #[trigger] steps_along(
            input,
            output,
            batches,
            ctx,
            grad,
            step,
            before,
            trace,
            grads,
            xs,
            ys,
            batches.len() as int,
        ) && trace[batches.len() as int] == after
}

/// Every gradient that `grad` hands back is well formed.
pub open spec fn grad_wf<T: Copy, C, G: Fn(&C, &Matrix<T>, &Matrix<T>, &Matrix<T>) -> Matrix<T>>(
    grad: G,
) -> bool {
    forall|c: &C, x: &Matrix<T>, y: &Matrix<T>, w: &Matrix<T>, g: Matrix<T>|
        #[trigger] grad.ensures((c, x, y, w), g) ==> g.wf()
}

/// Every gradient that `grad` hands back has the shape of the weight it was
/// computed from.
pub open spec fn grad_keeps_shape<T: Copy, C, G: Fn(&C, &Matrix<T>, &Matrix<T>, &Matrix<T>) -> Matrix<T>>(grad: G) -> bool {
    forall|c: &C, x: &Matrix<T>, y: &Matrix<T>, w: &Matrix<T>, g: Matrix<T>|
        #[trigger] grad.ensures((c, x, y, w), g) ==> g.shape_of() == w.shape_of()
}

/// Runs one epoch: walks the batches that `updatation_method` cuts the rows
/// into, in order, and for each computes the gradient with `grad(ctx,
/// batch_input, batch_targets, weight)` from the latest weight and moves the weight
/// against it with `step`. A gradient whose shape is not the weight's stops
/// the epoch with `ShapeMismatch`.
pub fn update_weight<T: Copy, C, G: Fn(&C, &Matrix<T>, &Matrix<T>, &Matrix<T>) -> Matrix<T>, S: Fn(
    T,
    T,
) -> T>(
    input: &Matrix<T>,
    output: &Matrix<T>,
    weight: &mut Weight<T>,
    updatation_method: UpdatationMethod,
    mini_batch_size: Option<MiniBatchSize>,
    ctx: &C,
    grad: G,
    step: S,
) -> (r: Result<(), TrainError>)
    requires
        input.wf(),
        output.wf(),
        input@.len() == output@.len(),
        old(weight).wf(),
        forall|x: &Matrix<T>, y: &Matrix<T>, w: &Matrix<T>| #[trigger] grad.requires((ctx, x, y, w)),
        forall|a: T, b: T| #[trigger] step.requires((a, b)),
        grad_wf(grad),
    ensures
        final(weight).wf(),
        final(weight).matrix().shape_of() == old(weight).matrix().shape_of(),
        r is Ok ==> epoch_between(
            *input,
            *output,
            updatation_method,
            mini_batch_size,
            ctx,
            grad,
            step,
            old(weight).matrix(),
            final(weight).matrix(),
        ),
        r is Err ==> r == Err::<(), TrainError>(TrainError::ShapeMismatch),
        grad_keeps_shape(grad) ==> r is Ok,
{
    let n = input.nrows();
    let batches = epoch_batches(updatation_method, mini_batch_size, n);
    let ghost start = weight.matrix();
    let ghost mut trace: Seq<Matrix<T>> = seq![start];
    let ghost mut grads: Seq<Matrix<T>> = Seq::empty();
    let ghost mut xs: Seq<Matrix<T>> = Seq::empty();
    let ghost mut ys: Seq<Matrix<T>> = Seq::empty();
    let mut k: usize = 0;
    while k < batches.len()
        invariant
            k <= batches@.len(),
            is_chunking(batches@, n as nat, batch_width(updatation_method, mini_batch_size, n as nat)),
            n == input@.len(),
            input.wf(),
            output.wf(),
            input@.len() == output@.len(),
            weight.wf(),
            forall|x: &Matrix<T>, y: &Matrix<T>, w: &Matrix<T>| #[trigger] grad.requires((ctx, x, y, w)),
            forall|a: T, b: T| #[trigger] step.requires((a, b)),
            grad_wf(grad),
            steps_along(*input, *output, batches@, ctx, grad, step, start, trace, grads, xs, ys, k as int),
            trace[k as int] == weight.matrix(),
            weight.matrix().shape_of() == start.shape_of(),
            start == old(weight).matrix(),
        decreases batches@.len() - k,
    {
        let (s, e) = batches[k];
        proof {
            let w = batch_width(updatation_method, mini_batch_size, n as nat);
            let ki = k as int;
            assert((batches@[ki].0 as nat, batches@[ki].1 as nat) == chunk(n as nat, w, ki as nat));
            lemma_batches_partition_rows(n as nat, w);
            assert(chunk(n as nat, w, ki as nat).1 <= n);
        }
        let bx = input.slice_rows(s, e);
        let by = output.slice_rows(s, e);
        let g = grad(ctx, &bx, &by, weight.as_matrix());
        let ghost before = weight.matrix();
        let res = weight.update(&g, &step);
        if res.is_err() {
            assert(weight.matrix() == before);
            return Err(TrainError::ShapeMismatch);
        }
        proof {
            let ki = k as int;
            let tr2 = trace.push(weight.matrix());
            let gr2 = grads.push(g);
            let xs2 = xs.push(bx);
            let ys2 = ys.push(by);
            assert forall|j: int| 0 <= j < ki + 1 implies #[trigger] step_at(
                *input, *output, batches@, ctx, grad, step, tr2, gr2, xs2, ys2, j,
            ) by {
                if j < ki {
                    assert(step_at(*input, *output, batches@, ctx, grad, step, trace, grads, xs, ys, j));
                }
            }
            trace = tr2;
            grads = gr2;
            xs = xs2;
            ys = ys2;
        }
        k += 1;
    }
    proof {
        assert(steps_along(*input, *output, batches@, ctx, grad, step, start, trace, grads, xs, ys, batches@.len() as int));
        assert(epoch_run(*input, *output, batches@, ctx, grad, step, start, weight.matrix()));
    }
    Ok(())
}

/// `ws` holds the weight before each of `ws.len() - 1` epochs and after the
/// last: each epoch walks the batches `method` cuts the rows into, starting
/// from the weight the epoch before it left.
pub open spec fn epochs_along<T: Copy, C, G: Fn(&C, &Matrix<T>, &Matrix<T>, &Matrix<T>) -> Matrix<T>, S: Fn(T, T) -> T>(
    input: Matrix<T>,
    output: Matrix<T>,
    method: UpdatationMethod,
    size: Option<MiniBatchSize>,
    ctx: &C,
    grad: G,
    step: S,
    ws: Seq<Matrix<T>>,
) -> bool {
    forall|e: int|
        0 <= e < ws.len() - 1 ==> epoch_between(
            input,
            output,
            method,
            size,
            ctx,
            grad,
            step,
            #[trigger] ws[e],
            ws[e + 1],
        )
}

/// One epoch of `method` takes the weight from `before` to `after`: it walks
/// the batches `method` cuts the rows into (see `epoch_run`).
pub open spec fn epoch_between<T: Copy, C, G: Fn(&C, &Matrix<T>, &Matrix<T>, &Matrix<T>) -> Matrix<T>, S: Fn(T, T) -> T>(
    input: Matrix<T>,
    output: Matrix<T>,
    method: UpdatationMethod,
    size: Option<MiniBatchSize>,
    ctx: &C,
    grad: G,
    step: S,
    before: Matrix<T>,
    after: Matrix<T>,
) -> bool {
    exists|batches: Seq<(usize, usize)>|
        is_chunking(batches, input@.len(), batch_width(method, size, input@.len()))
            && #[trigger] epoch_run(input, output, batches, ctx, grad, step, before, after)
}

/// Runs `epochs` epochs one after the other (see `update_weight`), stopping
/// at the first `ShapeMismatch`.
pub fn run_epochs<T: Copy, C, G: Fn(&C, &Matrix<T>, &Matrix<T>, &Matrix<T>) -> Matrix<T>, S: Fn(
    T,
    T,
) -> T>(
    input: &Matrix<T>,
    output: &Matrix<T>,
    weight: &mut Weight<T>,
    epochs: usize,
    updatation_method: UpdatationMethod,
    mini_batch_size: Option<MiniBatchSize>,
    ctx: &C,
    grad: &G,
    step: &S,
) -> (r: Result<(), TrainError>)
    requires
        input.wf(),
        output.wf(),
        input@.len() == output@.len(),
        old(weight).wf(),
        forall|x: &Matrix<T>, y: &Matrix<T>, w: &Matrix<T>| #[trigger] grad.requires((ctx, x, y, w)),
        forall|a: T, b: T| #[trigger] step.requires((a, b)),
        grad_wf(grad),
    ensures
        final(weight).wf(),
        final(weight).matrix().shape_of() == old(weight).matrix().shape_of(),
        r is Ok ==> exists|ws: Seq<Matrix<T>>|
            ws.len() == epochs + 1 && ws[0] == old(weight).matrix() && ws[epochs as int]
                == final(weight).matrix() && #[trigger] epochs_along(
                *input,
                *output,
                updatation_method,
                mini_batch_size,
                ctx,
                grad,
                step,
                ws,
            ),
        r is Err ==> r == Err::<(), TrainError>(TrainError::ShapeMismatch),
        grad_keeps_shape(grad) ==> r is Ok,
{
    let ghost ws: Seq<Matrix<T>> = seq![weight.matrix()];
    let mut e: usize = 0;
    while e < epochs
        invariant
            e <= epochs,
            input.wf(),
            output.wf(),
            input@.len() == output@.len(),
            weight.wf(),
            forall|x: &Matrix<T>, y: &Matrix<T>, w: &Matrix<T>| #[trigger] grad.requires((ctx, x, y, w)),
            forall|a: T, b: T| #[trigger] step.requires((a, b)),
            grad_wf(grad),
            ws.len() == e + 1,
            ws[0] == old(weight).matrix(),
            ws[e as int] == weight.matrix(),
            weight.matrix().shape_of() == old(weight).matrix().shape_of(),
            epochs_along(*input, *output, updatation_method, mini_batch_size, ctx, grad, step, ws),
        decreases epochs - e,
    {
        let ghost before = weight.matrix();
        let res = update_weight(input, output, weight, updatation_method, mini_batch_size, ctx, grad, step);
        if res.is_err() {
            return Err(TrainError::ShapeMismatch);
        }
        proof {
            let ws2 = ws.push(weight.matrix());
            assert forall|i: int| 0 <= i < ws2.len() - 1 implies epoch_between(
                *input, *output, updatation_method, mini_batch_size, ctx, grad, step, #[trigger] ws2[i], ws2[i + 1],
            ) by {
                if i < e {
                    assert(ws2[i] == ws[i] && ws2[i + 1] == ws[i + 1]);
                }
            }
            ws = ws2;
        }
        e += 1;
    }
    Ok(())
}

/// With single-sample updates an epoch over `n` rows makes `n` steps, step
/// `k` on row `k` alone, and each step computes its gradient from the weight
/// that the step before it produced, not from the weight the epoch started
/// with.
pub proof fn lemma_single_sample_uses_latest_weight<T: Copy, C, G: Fn(&C, &Matrix<T>, &Matrix<T>, &Matrix<T>) -> Matrix<T>, S: Fn(T, T) -> T>(
    input: Matrix<T>,
    output: Matrix<T>,
    size: Option<MiniBatchSize>,
    batches: Seq<(usize, usize)>,
    ctx: &C,
    grad: G,
    step: S,
    start: Matrix<T>,
    trace: Seq<Matrix<T>>,
    grads: Seq<Matrix<T>>,
    xs: Seq<Matrix<T>>,
    ys: Seq<Matrix<T>>,
)
    requires
        input@.len() == output@.len(),
        is_chunking(batches, input@.len(), batch_width(UpdatationMethod::SGD, size, input@.len())),
        steps_along(input, output, batches, ctx, grad, step, start, trace, grads, xs, ys, batches.len() as int),
    ensures
        batches.len() == input@.len(),
        forall|k: int|
            0 <= k < input@.len() ==> #[trigger] xs[k]@ == seq![input@[k]] && ys[k]@ == seq![output@[k]]
                && grad.ensures((ctx, &xs[k], &ys[k], &trace[k]), grads[k]) && (k > 0 ==> stepped(
                trace[k - 1],
                grads[k - 1],
                step,
                trace[k],
            )),
{
    let n = input@.len();
    if n > 0 {
        assert((n - 1) as nat / 1 == n - 1);
    }
    assert forall|k: int| 0 <= k < n implies #[trigger] xs[k]@ == seq![input@[k]] && ys[k]@ == seq![output@[k]]
        && grad.ensures((ctx, &xs[k], &ys[k], &trace[k]), grads[k]) && (k > 0 ==> stepped(
        trace[k - 1],
        grads[k - 1],
        step,
        trace[k],
    )) by {
        assert(step_at(input, output, batches, ctx, grad, step, trace, grads, xs, ys, k));
        assert((batches[k].0 as nat, batches[k].1 as nat) == chunk(n, 1, k as nat));
        assert(xs[k]@ =~= seq![input@[k]]);
        assert(ys[k]@ =~= seq![output@[k]]);
        if k > 0 {
            assert(step_at(input, output, batches, ctx, grad, step, trace, grads, xs, ys, k - 1));
        }
    }
}

} // verus!
