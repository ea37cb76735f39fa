//! Drawing run-length encoded sprites into the 8-bit back buffer.
//! Each sprite row is a list of runs ended by a 0 byte: a byte `c` with the
//! top bit set is a transparent run that moves `c & 0x7f` columns on; any
//! other non-zero byte `n` is followed by `n` pixel bytes, drawn from the
//! current column on, which then moves `n` columns on. Each row starts at the
//! sprite's left edge; pixel 0 is transparent.
use vstd::prelude::*;
use crate::screen::ScreenState;
use crate::types::{TbSprite, TbResult, LB_SUCCESS, LB_FAIL};

verus! {

/// `buf` with pixel `px` put at `(dx, dy)` of a `w` x `h` screen, when the
/// point is on the screen and the pixel is not transparent.
pub open spec fn put_pixel(buf: Seq<u8>, w: int, h: int, dx: int, dy: int, px: u8) -> Seq<u8> {
    if 0 <= dx < w && 0 <= dy < h && px != 0 {
        buf.update(dy * w + dx, px)
    } else {
        buf
    }
}

/// `buf` after the pixels `col..cnt` of the run whose pixels start at `pos`
/// are drawn on row `dy` from `x` on.
pub open spec fn draw_run(buf: Seq<u8>, data: Seq<u8>, pos: int, x: int, dy: int, col: int, cnt: int, w: int, h: int) -> Seq<u8>
    decreases cnt - col,
{
    if col >= cnt {
        buf
    } else {
        draw_run(put_pixel(buf, w, h, x + col, dy, data[pos + col]), data, pos, x, dy, col + 1, cnt, w, h)
    }
}

/// The buffer and the data position after the rest of the row whose runs
/// start at `pos` is drawn on row `dy`, the sprite's left edge at `x` and the
/// drawing at column `col` of the sprite; `None` when the data ends before
/// the row does.
pub open spec fn draw_row(buf: Seq<u8>, data: Seq<u8>, pos: int, x: int, col: int, dy: int, w: int, h: int) -> Option<(Seq<u8>, int)>
    decreases data.len() - pos,
{
    if pos < 0 || pos >= data.len() {
        None
    } else {
        let cnt = data[pos];
        if cnt == 0 {
            Some((buf, pos + 1))
        } else if cnt & 0x80 != 0 {
            draw_row(buf, data, pos + 1, x, col + (cnt & 0x7f), dy, w, h)
        } else if pos + 1 + cnt > data.len() {
            None
        } else {
            draw_row(draw_run(buf, data, pos + 1, x + col, dy, 0, cnt as int, w, h), data, pos + 1 + cnt, x, col + cnt, dy, w, h)
        }
    }
}

/// Pixels right of the screen's edge are not drawn: a run that starts there
/// leaves the buffer as it is.
proof fn lemma_run_off_right(buf: Seq<u8>, data: Seq<u8>, pos: int, sx: int, dy: int, col: int, cnt: int, w: int, h: int)
    requires
        sx + col >= w,
    ensures
        draw_run(buf, data, pos, sx, dy, col, cnt, w, h) == buf,
    decreases cnt - col,
{
    if col < cnt {
        lemma_run_off_right(buf, data, pos, sx, dy, col + 1, cnt, w, h);
    }
}

/// The column `v` of the screen, held at 2^31 once it is past every column a
/// screen can have.
pub open spec fn capped_col(v: int) -> int {
    if v < 0x8000_0000 { v } else { 0x8000_0000 }
}

/// The buffer after rows `row..rows` are drawn from data position `pos`, the
/// sprite's top row at `y`; `None` when the data ends too soon.
pub open spec fn draw_rows(buf: Seq<u8>, data: Seq<u8>, pos: int, row: int, rows: int, x: int, y: int, w: int, h: int) -> Option<Seq<u8>>
    decreases rows - row,
{
    if row >= rows {
        Some(buf)
    } else {
        match draw_row(buf, data, pos, x, 0, y + row, w, h) {
            None => None,
            Some(r) => draw_rows(r.0, data, r.1, row + 1, rows, x, y, w, h),
        }
    }
}

/// The sprite `spr` drawn at `(x, y)` on the screen's back buffer.
pub open spec fn sprite_drawn(scr: ScreenState, spr: TbSprite, x: int, y: int) -> Option<Seq<u8>> {
    draw_rows(
        scr.back_buf@,
        spr.data@,
        0,
        0,
        spr.s_height as int,
        x,
        y,
        scr.display.graphics_screen_width as int,
        scr.display.graphics_screen_height as int,
    )
}

/// The sprite's data holds all its rows, and the drawing stays in range.
pub open spec fn sprite_drawable(scr: ScreenState, spr: TbSprite, x: i32, y: i32) -> bool {
    &&& sprite_drawn(scr, spr, x as int, y as int) is Some
    &&& scr.display.graphics_screen_width >= 0
    &&& scr.display.graphics_screen_height >= 0
    &&& scr.display.graphics_screen_width as int * scr.display.graphics_screen_height as int <= scr.back_buf@.len()
    &&& y as int + spr.s_height as int <= i32::MAX
}

fn draw_run_exec(buf: &mut Vec<u8>, data: &Vec<u8>, pos: usize, sx: i64, dy: i32, cnt: usize, w: i32, h: i32)
    requires
        pos + cnt <= data@.len(),
        cnt < 128,
        i32::MIN <= sx <= 0x8000_0000,
        w >= 0,
        h >= 0,
        w as int * h as int <= old(buf)@.len(),
    ensures
        final(buf)@.len() == old(buf)@.len(),
        final(buf)@ == draw_run(old(buf)@, data@, pos as int, sx as int, dy as int, 0, cnt as int, w as int, h as int),
{
    let dlen = data.len();
    let blen = buf.len();
    let mut col: usize = 0;
    while col < cnt
        invariant
            dlen == data@.len(),
            blen == buf@.len(),
            col <= cnt,
            pos + cnt <= data@.len(),
            cnt < 128,
            i32::MIN <= sx <= 0x8000_0000,
            w >= 0,
            h >= 0,
            w as int * h as int <= buf@.len(),
            buf@.len() == old(buf)@.len(),
            draw_run(buf@, data@, pos as int, sx as int, dy as int, col as int, cnt as int, w as int, h as int)
                == draw_run(old(buf)@, data@, pos as int, sx as int, dy as int, 0, cnt as int, w as int, h as int),
        decreases cnt - col,
    {
        let dx: i64 = sx + col as i64;
        let px = data[pos + col];
        if dx >= 0 && dx < w as i64 && dy >= 0 && dy < h && px != 0 {
            assert((dy as int) * (w as int) + (dx as int) < (w as int) * (h as int)) by (nonlinear_arith)
                requires
                    0 <= dy < h,
                    0 <= dx < w,
            ;
            let i = (dy as usize) * (w as usize) + dx as usize;
            buf.set(i, px);
        }
        col = col + 1;
    }
}

/// Draws a sprite at `(x, y)` on the back buffer. Fails when there is no
/// sprite or no back buffer.
pub fn LbSpriteDraw(scr: &mut ScreenState, x: i32, y: i32, spr: Option<&TbSprite>) -> (r: TbResult)
    requires
        old(scr).back_buf@.len() > 0 && spr is Some ==> sprite_drawable(*old(scr), *spr.unwrap(), x, y),
    ensures
        spr is None || old(scr).back_buf@.len() == 0 ==> r == LB_FAIL && *final(scr) == *old(scr),
        spr is Some && old(scr).back_buf@.len() > 0 ==> r == LB_SUCCESS && *final(scr) == (ScreenState {
            back_buf: final(scr).back_buf,
            ..*old(scr)
        }) && sprite_drawn(*old(scr), *spr.unwrap(), x as int, y as int) == Some(final(scr).back_buf@),
{
    let spr = match spr {
        None => return LB_FAIL,
        Some(s) => s,
    };
    if scr.back_buf.len() == 0 {
        return LB_FAIL;
    }
    let ghost s0 = *scr;
    let w = scr.display.graphics_screen_width;
    let h = scr.display.graphics_screen_height;
    let rows = spr.s_height as i32;
    let dl = spr.data.len();
    let mut pos: usize = 0;
    let mut row: i32 = 0;
    while row < rows
        invariant
            0 <= row <= rows,
            rows == spr.s_height as i32,
            w == s0.display.graphics_screen_width,
            h == s0.display.graphics_screen_height,
            w >= 0,
            h >= 0,
            w as int * h as int <= scr.back_buf@.len(),
            y as int + spr.s_height as int <= i32::MAX,
            dl == spr.data@.len(),
            *scr == (ScreenState { back_buf: scr.back_buf, ..s0 }),
            draw_rows(scr.back_buf@, spr.data@, pos as int, row as int, rows as int, x as int, y as int, w as int, h as int)
                == sprite_drawn(s0, *spr, x as int, y as int),
            sprite_drawn(s0, *spr, x as int, y as int) is Some,
        decreases rows - row,
    {
        let dy: i32 = y + row;
        let ghost row_result = draw_row(scr.back_buf@, spr.data@, pos as int, x as int, 0, dy as int, w as int, h as int);
        // The screen column the drawing is at, held at 2^31 past any screen.
        let mut cur: i64 = x as i64;
        let ghost mut col: int = 0;
        loop
            invariant_except_break
                draw_row(scr.back_buf@, spr.data@, pos as int, x as int, col, dy as int, w as int, h as int) == row_result,
            invariant
                w >= 0,
                h >= 0,
                w as int * h as int <= scr.back_buf@.len(),
                col >= 0,
                cur as int == capped_col(x as int + col),
                dl == spr.data@.len(),
                *scr == (ScreenState { back_buf: scr.back_buf, ..s0 }),
                row_result is Some,
            ensures
                row_result == Some((scr.back_buf@, pos as int)),
            decreases dl - pos,
        {
            let cnt = spr.data[pos];
            pos = pos + 1;
            if cnt == 0 {
                break;
            }
            if (cnt & 0x80) == 0 {
                assert(cnt & 0x80 == 0 ==> cnt < 128) by (bit_vector);
                let c = cnt as usize;
                let mut b: Vec<u8> = Vec::new();
                std::mem::swap(&mut b, &mut scr.back_buf);
                proof {
                    if x as int + col >= 0x8000_0000 {
                        lemma_run_off_right(b@, spr.data@, pos as int, cur as int, dy as int, 0, c as int, w as int, h as int);
                        lemma_run_off_right(b@, spr.data@, pos as int, x as int + col, dy as int, 0, c as int, w as int, h as int);
                    }
                }
                draw_run_exec(&mut b, &spr.data, pos, cur, dy, c, w, h);
                std::mem::swap(&mut b, &mut scr.back_buf);
                pos = pos + c;
                proof {
                    col = col + c;
                }
                cur = if cur + (c as i64) < 0x8000_0000 { cur + c as i64 } else { 0x8000_0000 };
            } else {
                let k: u8 = cnt & 0x7f;
                assert(cnt & 0x7f < 128) by (bit_vector);
                proof {
                    col = col + k;
                }
                cur = if cur + (k as i64) < 0x8000_0000 { cur + k as i64 } else { 0x8000_0000 };
            }
        }
        row = row + 1;
    }
    LB_SUCCESS
}

} // verus!
